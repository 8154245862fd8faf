use vstd::prelude::*;

use super::{runs_with};
use super::PackageProvider;
use crate::contexts::Contexts;
use crate::error::PlanError;
use crate::host::locate_executable;
use crate::package::{packages_of, PackageRepository, PackageRepositoryModel, PackageVariant, PackageVariantModel};
use crate::steps::{exec_step, exec_step_model, Step, StepModel};
use crate::text::{concat3, no_strings};

verus! {

/// The MacPorts package manager, `port`.
#[derive(Debug, PartialEq, Eq)]
pub struct Macports {}

/// Installing with the executable found at `cli`: nothing when none was
/// found, else one privileged `install` of the extra arguments and the
/// packages, run through no privilege provider.
pub open spec fn macports_install_with(package: PackageVariantModel, cli: Option<Seq<char>>) -> Seq<StepModel> {
    match cli {
        None => seq![],
        Some(c) => seq![
            exec_step_model(c, seq!["install"@] + package.extra_args + packages_of(package), true, seq![], None),
        ],
    }
}

impl Macports {
    /// The installation planned when the executable was found at `cli`
    /// (or not found).
    pub fn install_with_cli(package: &PackageVariant, cli: Option<String>) -> (r: Vec<Step>)
        ensures
            r.deep_view() == macports_install_with(package.deep_view(), cli.deep_view()),
    {
        match cli {
            None => {
                let r: Vec<Step> = Vec::new();
                assert(r.deep_view() =~= seq![]);
                r
            },
            Some(c) => {
                let head = vec![String::from_str("install")];
                assert(head.deep_view() =~= seq!["install"@]);
                let args = concat3(head, &package.extra_args, &package.packages());
                let r = vec![exec_step(c, args, true, String::new(), None)];
                assert(r.deep_view() =~= macports_install_with(package.deep_view(), Some(c@)));
                r
            },
        }
    }
}

impl PackageProvider for Macports {
    open spec fn spec_name(&self) -> Seq<char> {
        "MacPorts"@
    }

    open spec fn spec_bootstrap(&self, p: Seq<char>) -> Seq<StepModel> {
        seq![]
    }

    open spec fn spec_has_repository(&self, repository: PackageRepositoryModel) -> bool {
        false
    }

    open spec fn spec_add_repository(&self, repository: PackageRepositoryModel, p: Seq<char>) -> Seq<StepModel> {
        seq![]
    }

    open spec fn spec_query(&self, package: PackageVariantModel, installed: Seq<Seq<char>>) -> Seq<Seq<char>> {
        seq![]
    }

    open spec fn install_outcome(
        &self,
        package: PackageVariantModel,
        installed: Seq<Seq<char>>,
        p: Seq<char>,
        steps: Seq<StepModel>,
    ) -> bool {
        exists|cli: Option<Seq<char>>| steps == #[trigger] macports_install_with(package, cli)
    }

    fn name(&self) -> (r: &'static str) {
        "MacPorts"
    }

    fn available(&self) -> bool {
        locate_executable("port").is_some()
    }

    fn bootstrap(&self, contexts: &Contexts) -> (r: Vec<Step>) {
        let r: Vec<Step> = Vec::new();
        assert(r.deep_view() =~= seq![]);
        r
    }

    fn has_repository(&self, repository: &PackageRepository) -> (r: bool) {
        false
    }

    fn add_repository(&self, repository: &PackageRepository, contexts: &Contexts) -> (r: Result<Vec<Step>, PlanError>) {
        let r: Vec<Step> = Vec::new();
        assert(r.deep_view() =~= seq![]);
        Ok(r)
    }

    fn query(&self, package: &PackageVariant, installed: &Vec<String>) -> (r: Result<Vec<String>, PlanError>) {
        Ok(no_strings())
    }

    fn install(&self, package: &PackageVariant, installed: &Vec<String>, contexts: &Contexts) -> (r: Result<Vec<Step>, PlanError>) {
        let cli = locate_executable("port");
        let r = Macports::install_with_cli(package, cli);
        assert(macports_install_with(package.deep_view(), cli.deep_view()) == r.deep_view());
        Ok(r)
    }
}


/// Installing with MacPorts: nothing where its command was not found; else
/// one privileged run of the command found, whose arguments are `install`,
/// then the extra arguments, then every package that the request names, in
/// order.
pub proof fn lemma_macports_install_names_every_package(
    provider: Macports,
    package: PackageVariantModel,
    installed: Seq<Seq<char>>,
    p: Seq<char>,
    steps: Seq<StepModel>,
)
    requires
        provider.install_outcome(package, installed, p, steps),
    ensures
        steps.len() == 0 || (steps.len() == 1 && steps[0].atom is Exec && steps[0].atom->Exec_0.privileged && runs_with(
            steps[0],
            steps[0].atom->Exec_0.command,
            seq!["install"@],
            package.extra_args,
            packages_of(package),
        )),
        forall|c: Seq<char>|
            #[trigger] macports_install_with(package, Some(c)).len() == 1 && runs_with(
                macports_install_with(package, Some(c))[0],
                c,
                seq!["install"@],
                package.extra_args,
                packages_of(package),
            ),
{
}

} // verus!
