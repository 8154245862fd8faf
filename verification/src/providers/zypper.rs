use vstd::prelude::*;

use super::{runs_with};
use super::PackageProvider;
use crate::contexts::Contexts;
use crate::error::PlanError;
use crate::host::locate_executable;
use crate::package::{packages_of, PackageRepository, PackageRepositoryModel, PackageVariant, PackageVariantModel};
use crate::steps::{exec_step, exec_step_model, Step, StepModel};
use crate::text::{concat3, owned_strings};

verus! {

/// The openSUSE package manager, `zypper`.
#[derive(Debug, PartialEq, Eq)]
pub struct Zypper {}

/// Installing: one privileged `zypper install -y` of the extra arguments and
/// the packages, run through no privilege provider.
pub open spec fn zypper_install(package: PackageVariantModel) -> Seq<StepModel> {
    seq![
        exec_step_model(
            "zypper"@,
            seq!["install"@, "-y"@] + package.extra_args + packages_of(package),
            true,
            seq![],
            None,
        ),
    ]
}

impl PackageProvider for Zypper {
    open spec fn spec_name(&self) -> Seq<char> {
        "Zypper"@
    }

    open spec fn spec_bootstrap(&self, p: Seq<char>) -> Seq<StepModel> {
        seq![]
    }

    open spec fn spec_has_repository(&self, repository: PackageRepositoryModel) -> bool {
        false
    }

    open spec fn spec_add_repository(&self, repository: PackageRepositoryModel, p: Seq<char>) -> Seq<StepModel> {
        seq![]
    }

    open spec fn spec_query(&self, package: PackageVariantModel, installed: Seq<Seq<char>>) -> Seq<Seq<char>> {
        packages_of(package)
    }

    open spec fn install_outcome(
        &self,
        package: PackageVariantModel,
        installed: Seq<Seq<char>>,
        p: Seq<char>,
        steps: Seq<StepModel>,
    ) -> bool {
        steps == zypper_install(package)
    }

    fn name(&self) -> (r: &'static str) {
        "Zypper"
    }

    fn available(&self) -> bool {
        locate_executable("zypper").is_some()
    }

    fn bootstrap(&self, contexts: &Contexts) -> (r: Vec<Step>) {
        let r: Vec<Step> = Vec::new();
        assert(r.deep_view() =~= seq![]);
        r
    }

    fn has_repository(&self, repository: &PackageRepository) -> (r: bool) {
        false
    }

    fn add_repository(&self, repository: &PackageRepository, contexts: &Contexts) -> (r: Result<Vec<Step>, PlanError>) {
        let r: Vec<Step> = Vec::new();
        assert(r.deep_view() =~= seq![]);
        Ok(r)
    }

    fn query(&self, package: &PackageVariant, installed: &Vec<String>) -> (r: Result<Vec<String>, PlanError>) {
        Ok(package.packages())
    }

    fn install(&self, package: &PackageVariant, installed: &Vec<String>, contexts: &Contexts) -> (r: Result<Vec<Step>, PlanError>) {
        let head = owned_strings(&["install", "-y"]);
        assert(head.deep_view() =~= seq!["install"@, "-y"@]);
        let args = concat3(head, &package.extra_args, &package.packages());
        let r = vec![exec_step(String::from_str("zypper"), args, true, String::new(), None)];
        assert(r.deep_view() =~= zypper_install(package.deep_view()));
        Ok(r)
    }
}


/// Installing with Zypper is one privileged `zypper` step whose arguments are
/// `install -y`, then the extra arguments, then every package that the
/// request names, in order (its name, else its list).
pub proof fn lemma_zypper_install_names_every_package(
    provider: Zypper,
    package: PackageVariantModel,
    installed: Seq<Seq<char>>,
    p: Seq<char>,
    steps: Seq<StepModel>,
)
    requires
        provider.install_outcome(package, installed, p, steps),
    ensures
        steps.len() == 1,
        runs_with(steps[0], "zypper"@, seq!["install"@, "-y"@], package.extra_args, packages_of(package)),
        steps[0].atom->Exec_0.privileged == true,
{
}

} // verus!
