use vstd::prelude::*;

use super::{runs_with, lemma_missing_exactly};
use super::{missing, not_installed, PackageProvider};
use crate::contexts::Contexts;
use crate::error::PlanError;
use crate::host::locate_executable;
use crate::package::{packages_of, PackageRepository, PackageRepositoryModel, PackageVariant, PackageVariantModel};
use crate::steps::{plain_step, plain_step_model, Step, StepModel};
use crate::text::{concat3, owned_strings};

verus! {

/// The macOS package manager, `brew`. It needs no privileges.
#[derive(Debug, PartialEq, Eq)]
pub struct Homebrew {}

/// Installing: nothing when every package is installed already, else one
/// `brew install` of the extra arguments and the missing packages.
pub open spec fn brew_install(package: PackageVariantModel, installed: Seq<Seq<char>>) -> Seq<StepModel> {
    let need = missing(packages_of(package), installed);
    if need.len() == 0 {
        seq![]
    } else {
        seq![plain_step_model("brew"@, seq!["install"@] + package.extra_args + need)]
    }
}

impl PackageProvider for Homebrew {
    open spec fn spec_name(&self) -> Seq<char> {
        "Homebrew"@
    }

    open spec fn spec_bootstrap(&self, p: Seq<char>) -> Seq<StepModel> {
        seq![
            plain_step_model(
                "bash"@,
                seq!["-c"@, "$(curl -fsSL https://raw.githubusercontent.com/Homebrew/install/HEAD/install.sh)"@],
            ),
        ]
    }

    open spec fn spec_has_repository(&self, repository: PackageRepositoryModel) -> bool {
        false
    }

    open spec fn spec_add_repository(&self, repository: PackageRepositoryModel, p: Seq<char>) -> Seq<StepModel> {
        seq![plain_step_model("brew"@, seq!["tap"@, repository.name])]
    }

    open spec fn spec_query(&self, package: PackageVariantModel, installed: Seq<Seq<char>>) -> Seq<Seq<char>> {
        missing(packages_of(package), installed)
    }

    open spec fn install_outcome(
        &self,
        package: PackageVariantModel,
        installed: Seq<Seq<char>>,
        p: Seq<char>,
        steps: Seq<StepModel>,
    ) -> bool {
        steps == brew_install(package, installed)
    }

    fn name(&self) -> (r: &'static str) {
        "Homebrew"
    }

    fn available(&self) -> bool {
        locate_executable("brew").is_some()
    }

    fn bootstrap(&self, contexts: &Contexts) -> (r: Vec<Step>) {
        let args = owned_strings(&["-c", "$(curl -fsSL https://raw.githubusercontent.com/Homebrew/install/HEAD/install.sh)"]);
        assert(args.deep_view() =~= seq!["-c"@, "$(curl -fsSL https://raw.githubusercontent.com/Homebrew/install/HEAD/install.sh)"@]);
        let r = vec![plain_step("bash", args)];
        assert(r.deep_view() =~= self.spec_bootstrap(contexts.privilege()));
        r
    }

    fn has_repository(&self, repository: &PackageRepository) -> (r: bool) {
        false
    }

    fn add_repository(&self, repository: &PackageRepository, contexts: &Contexts) -> (r: Result<Vec<Step>, PlanError>) {
        let args = vec![String::from_str("tap"), repository.name.clone()];
        assert(args.deep_view() =~= seq!["tap"@, repository.name@]);
        let r = vec![plain_step("brew", args)];
        assert(r.deep_view() =~= self.spec_add_repository(repository.deep_view(), contexts.privilege()));
        Ok(r)
    }

    fn query(&self, package: &PackageVariant, installed: &Vec<String>) -> (r: Result<Vec<String>, PlanError>) {
        Ok(not_installed(package, installed))
    }

    fn install(&self, package: &PackageVariant, installed: &Vec<String>, contexts: &Contexts) -> (r: Result<Vec<Step>, PlanError>) {
        let need = not_installed(package, installed);
        if need.len() == 0 {
            let r: Vec<Step> = Vec::new();
            assert(r.deep_view() =~= seq![]);
            return Ok(r);
        }
        let head = vec![String::from_str("install")];
        assert(head.deep_view() =~= seq!["install"@]);
        let args = concat3(head, &package.extra_args, &need);
        let r = vec![plain_step("brew", args)];
        assert(r.deep_view() =~= brew_install(package.deep_view(), installed.deep_view()));
        Ok(r)
    }
}


/// Installing with Homebrew: nothing when every package that the request
/// names is installed already; else one `brew` step whose arguments are
/// `install`, then the extra arguments, then exactly the packages
/// that are not installed yet, in order.
pub proof fn lemma_brew_installs_exactly_the_missing_packages(
    provider: Homebrew,
    package: PackageVariantModel,
    installed: Seq<Seq<char>>,
    p: Seq<char>,
    steps: Seq<StepModel>,
)
    requires
        provider.install_outcome(package, installed, p, steps),
    ensures
        (forall|x: Seq<char>| packages_of(package).contains(x) ==> installed.contains(x)) ==> steps.len() == 0,
        (exists|x: Seq<char>| packages_of(package).contains(x) && !installed.contains(x)) ==> {
            &&& steps.len() == 1
            &&& runs_with(steps[0], "brew"@, seq!["install"@], package.extra_args, missing(packages_of(package), installed))
        },
        forall|x: Seq<char>|
            #[trigger] missing(packages_of(package), installed).contains(x) <==> packages_of(package).contains(x)
                && !installed.contains(x),
{
    let need = missing(packages_of(package), installed);
    assert forall|x: Seq<char>|
        #[trigger] need.contains(x) <==> packages_of(package).contains(x) && !installed.contains(x) by {
        lemma_missing_exactly(packages_of(package), installed, x);
    }
    if need.len() > 0 {
        assert(need.contains(need[0]));
    }
    if exists|x: Seq<char>| packages_of(package).contains(x) && !installed.contains(x) {
        let x = choose|x: Seq<char>| packages_of(package).contains(x) && !installed.contains(x);
        assert(need.contains(x));
    }
}


/// Adding a repository with Homebrew is one `brew tap` of its name.
pub proof fn lemma_brew_taps_the_named_repository(provider: Homebrew, repository: PackageRepositoryModel, p: Seq<char>)
    ensures
        ({
            let steps = provider.spec_add_repository(repository, p);
            &&& steps.len() == 1
            &&& steps[0].atom is Exec && steps[0].atom->Exec_0.command == "brew"@
            &&& steps[0].atom->Exec_0.arguments == seq!["tap"@, repository.name]
        }),
{
}

} // verus!
