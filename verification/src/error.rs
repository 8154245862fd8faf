use vstd::prelude::*;

verus! {

/// Why an action could not be planned.
#[derive(Debug, PartialEq, Eq)]
pub enum PlanError {
    /// The named package provider is not available and cannot be bootstrapped.
    ProviderUnavailable { provider: String },
    /// The named package provider cannot install packages from local files.
    LocalFileUnsupported { provider: String },
    /// The manifest has no root directory to resolve a path against.
    MissingRootDir,
    /// The path could not be resolved in the manifest's files.
    UnresolvedPath { path: String },
    /// The path has no parent directory.
    NoParentDirectory { path: String },
}

pub enum PlanErrorModel {
    ProviderUnavailable { provider: Seq<char> },
    LocalFileUnsupported { provider: Seq<char> },
    MissingRootDir,
    UnresolvedPath { path: Seq<char> },
    NoParentDirectory { path: Seq<char> },
}

impl DeepView for PlanError {
    type V = PlanErrorModel;

    open spec fn deep_view(&self) -> PlanErrorModel {
        match self {
            PlanError::ProviderUnavailable { provider } => PlanErrorModel::ProviderUnavailable {
                provider: provider@,
            },
            PlanError::LocalFileUnsupported { provider } => PlanErrorModel::LocalFileUnsupported {
                provider: provider@,
            },
            PlanError::MissingRootDir => PlanErrorModel::MissingRootDir,
            PlanError::UnresolvedPath { path } => PlanErrorModel::UnresolvedPath { path: path@ },
            PlanError::NoParentDirectory { path } => PlanErrorModel::NoParentDirectory { path: path@ },
        }
    }
}

} // verus!
