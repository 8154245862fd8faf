use vstd::prelude::*;

use super::{runs_with, lemma_missing_exactly};
use super::{missing, not_installed, PackageProvider};
use crate::contexts::Contexts;
use crate::error::PlanError;
use crate::host::locate_executable;
use crate::package::{packages_of, PackageRepository, PackageRepositoryModel, PackageVariant, PackageVariantModel};
use crate::steps::{privileged_step, privileged_step_model, Step, StepModel};
use crate::text::{concat3, no_pairs, owned_strings};

verus! {

/// The Void Linux package manager, `xbps`.
#[derive(Debug, PartialEq, Eq)]
pub struct Xbps {}

/// Installing: nothing when every package is installed already, else one
/// privileged `xbps-install -S --yes --update` of the extra arguments and
/// the missing packages.
pub open spec fn xbps_install(package: PackageVariantModel, installed: Seq<Seq<char>>, p: Seq<char>) -> Seq<StepModel> {
    let need = missing(packages_of(package), installed);
    if need.len() == 0 {
        seq![]
    } else {
        seq![
            privileged_step_model(
                "xbps-install"@,
                seq!["-S"@, "--yes"@, "--update"@] + package.extra_args + need,
                seq![],
                p,
            ),
        ]
    }
}

impl PackageProvider for Xbps {
    open spec fn spec_name(&self) -> Seq<char> {
        "Xbps"@
    }

    open spec fn spec_bootstrap(&self, p: Seq<char>) -> Seq<StepModel> {
        seq![]
    }

    open spec fn spec_has_repository(&self, repository: PackageRepositoryModel) -> bool {
        false
    }

    open spec fn spec_add_repository(&self, repository: PackageRepositoryModel, p: Seq<char>) -> Seq<StepModel> {
        seq![]
    }

    open spec fn spec_query(&self, package: PackageVariantModel, installed: Seq<Seq<char>>) -> Seq<Seq<char>> {
        missing(packages_of(package), installed)
    }

    open spec fn install_outcome(
        &self,
        package: PackageVariantModel,
        installed: Seq<Seq<char>>,
        p: Seq<char>,
        steps: Seq<StepModel>,
    ) -> bool {
        steps == xbps_install(package, installed, p)
    }

    fn name(&self) -> (r: &'static str) {
        "Xbps"
    }

    /// Both `xbps-install` and `xbps-query` must be found.
    fn available(&self) -> bool {
        let install = locate_executable("xbps-install").is_some();
        let query = locate_executable("xbps-query").is_some();
        install && query
    }

    fn bootstrap(&self, contexts: &Contexts) -> (r: Vec<Step>) {
        let r: Vec<Step> = Vec::new();
        assert(r.deep_view() =~= seq![]);
        r
    }

    fn has_repository(&self, repository: &PackageRepository) -> (r: bool) {
        false
    }

    fn add_repository(&self, repository: &PackageRepository, contexts: &Contexts) -> (r: Result<Vec<Step>, PlanError>) {
        let r: Vec<Step> = Vec::new();
        assert(r.deep_view() =~= seq![]);
        Ok(r)
    }

    fn query(&self, package: &PackageVariant, installed: &Vec<String>) -> (r: Result<Vec<String>, PlanError>) {
        Ok(not_installed(package, installed))
    }

    fn install(&self, package: &PackageVariant, installed: &Vec<String>, contexts: &Contexts) -> (r: Result<Vec<Step>, PlanError>) {
        let need = not_installed(package, installed);
        if need.len() == 0 {
            let r: Vec<Step> = Vec::new();
            assert(r.deep_view() =~= seq![]);
            return Ok(r);
        }
        let provider = contexts.privilege_provider_or_sudo();
        let head = owned_strings(&["-S", "--yes", "--update"]);
        assert(head.deep_view() =~= seq!["-S"@, "--yes"@, "--update"@]);
        let args = concat3(head, &package.extra_args, &need);
        let r = vec![privileged_step("xbps-install", args, no_pairs(), provider)];
        assert(r.deep_view() =~= xbps_install(package.deep_view(), installed.deep_view(), contexts.privilege()));
        Ok(r)
    }
}


/// Installing with xbps: nothing when every package that the request
/// names is installed already; else one `xbps-install` step whose arguments are
/// `-S --yes --update`, then the extra arguments, then exactly the packages
/// that are not installed yet, in order.
pub proof fn lemma_xbps_installs_exactly_the_missing_packages(
    provider: Xbps,
    package: PackageVariantModel,
    installed: Seq<Seq<char>>,
    p: Seq<char>,
    steps: Seq<StepModel>,
)
    requires
        provider.install_outcome(package, installed, p, steps),
    ensures
        (forall|x: Seq<char>| packages_of(package).contains(x) ==> installed.contains(x)) ==> steps.len() == 0,
        (exists|x: Seq<char>| packages_of(package).contains(x) && !installed.contains(x)) ==> {
            &&& steps.len() == 1
            &&& runs_with(steps[0], "xbps-install"@, seq!["-S"@, "--yes"@, "--update"@], package.extra_args, missing(packages_of(package), installed))
        },
        forall|x: Seq<char>|
            #[trigger] missing(packages_of(package), installed).contains(x) <==> packages_of(package).contains(x)
                && !installed.contains(x),
{
    let need = missing(packages_of(package), installed);
    assert forall|x: Seq<char>|
        #[trigger] need.contains(x) <==> packages_of(package).contains(x) && !installed.contains(x) by {
        lemma_missing_exactly(packages_of(package), installed, x);
    }
    if need.len() > 0 {
        assert(need.contains(need[0]));
    }
    if exists|x: Seq<char>| packages_of(package).contains(x) && !installed.contains(x) {
        let x = choose|x: Seq<char>| packages_of(package).contains(x) && !installed.contains(x);
        assert(need.contains(x));
    }
}

} // verus!
