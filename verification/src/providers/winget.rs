use vstd::prelude::*;

use super::{runs_with, lemma_missing_exactly};
use super::{missing, not_installed, PackageProvider};
use crate::contexts::Contexts;
use crate::error::PlanError;
use crate::host::locate_executable;
use crate::package::{packages_of, PackageRepository, PackageRepositoryModel, PackageVariant, PackageVariantModel};
use crate::steps::{plain_step, plain_step_model, Step, StepModel};
use crate::text::{concat3, owned_strings};

verus! {

/// The Windows package manager, `winget`. It needs no privileges.
#[derive(Debug, PartialEq, Eq)]
pub struct Winget {}

/// The flags of every `winget` installation.
pub open spec fn winget_flags() -> Seq<Seq<char>> {
    seq![
        "install"@,
        "--silent"@,
        "--accept-package-agreements"@,
        "--accept-source-agreements"@,
        "--source"@,
        "winget"@,
    ]
}

/// Installing: one `winget install` per package that is not installed yet,
/// in order.
pub open spec fn winget_install(package: PackageVariantModel, installed: Seq<Seq<char>>) -> Seq<StepModel> {
    let need = missing(packages_of(package), installed);
    Seq::new(
        need.len(),
        |i: int| plain_step_model("winget"@, winget_flags() + package.extra_args + seq![need[i]]),
    )
}

impl PackageProvider for Winget {
    open spec fn spec_name(&self) -> Seq<char> {
        "Winget"@
    }

    open spec fn spec_bootstrap(&self, p: Seq<char>) -> Seq<StepModel> {
        seq![]
    }

    /// Winget's sources are always present.
    open spec fn spec_has_repository(&self, repository: PackageRepositoryModel) -> bool {
        true
    }

    open spec fn spec_add_repository(&self, repository: PackageRepositoryModel, p: Seq<char>) -> Seq<StepModel> {
        seq![]
    }

    open spec fn spec_query(&self, package: PackageVariantModel, installed: Seq<Seq<char>>) -> Seq<Seq<char>> {
        missing(packages_of(package), installed)
    }

    open spec fn install_outcome(
        &self,
        package: PackageVariantModel,
        installed: Seq<Seq<char>>,
        p: Seq<char>,
        steps: Seq<StepModel>,
    ) -> bool {
        steps == winget_install(package, installed)
    }

    fn name(&self) -> (r: &'static str) {
        "Winget"
    }

    fn available(&self) -> bool {
        locate_executable("winget").is_some()
    }

    fn bootstrap(&self, contexts: &Contexts) -> (r: Vec<Step>) {
        let r: Vec<Step> = Vec::new();
        assert(r.deep_view() =~= seq![]);
        r
    }

    fn has_repository(&self, repository: &PackageRepository) -> (r: bool) {
        true
    }

    fn add_repository(&self, repository: &PackageRepository, contexts: &Contexts) -> (r: Result<Vec<Step>, PlanError>) {
        let r: Vec<Step> = Vec::new();
        assert(r.deep_view() =~= seq![]);
        Ok(r)
    }

    fn query(&self, package: &PackageVariant, installed: &Vec<String>) -> (r: Result<Vec<String>, PlanError>) {
        Ok(not_installed(package, installed))
    }

    fn install(&self, package: &PackageVariant, installed: &Vec<String>, contexts: &Contexts) -> (r: Result<Vec<Step>, PlanError>) {
        let need = not_installed(package, installed);
        let ghost target = winget_install(package.deep_view(), installed.deep_view());
        let mut r: Vec<Step> = Vec::new();
        let mut i: usize = 0;
        while i < need.len()
            invariant
                i <= need@.len(),
                need.deep_view() == missing(packages_of(package.deep_view()), installed.deep_view()),
                target == winget_install(package.deep_view(), installed.deep_view()),
                r.deep_view() =~= target.subrange(0, i as int),
            decreases need@.len() - i,
        {
            let head = owned_strings(&["install", "--silent", "--accept-package-agreements", "--accept-source-agreements", "--source", "winget"]);
            assert(head.deep_view() =~= winget_flags());
            let last = vec![need[i].clone()];
            assert(last.deep_view() =~= seq![need.deep_view()[i as int]]);
            let step = plain_step("winget", concat3(head, &package.extra_args, &last));
            let ghost prev = r.deep_view();
            r.push(step);
            assert(r.deep_view() =~= prev.push(target[i as int]));
            i = i + 1;
        }
        assert(target.subrange(0, i as int) =~= target);
        Ok(r)
    }
}


/// Installing with winget is one `winget install` step per package that is
/// not installed yet, in order, each with the winget flags, then the extra
/// arguments, then that one package; and the packages so installed are
/// exactly those that the request names and that are not installed.
pub proof fn lemma_winget_installs_each_missing_package(
    provider: Winget,
    package: PackageVariantModel,
    installed: Seq<Seq<char>>,
    p: Seq<char>,
    steps: Seq<StepModel>,
)
    requires
        provider.install_outcome(package, installed, p, steps),
    ensures
        steps.len() == missing(packages_of(package), installed).len(),
        forall|i: int|
            0 <= i < steps.len() ==> runs_with(
                #[trigger] steps[i],
                "winget"@,
                winget_flags(),
                package.extra_args,
                seq![missing(packages_of(package), installed)[i]],
            ),
        forall|x: Seq<char>|
            #[trigger] missing(packages_of(package), installed).contains(x) <==> packages_of(package).contains(x)
                && !installed.contains(x),
{
    assert forall|x: Seq<char>|
        #[trigger] missing(packages_of(package), installed).contains(x) <==> packages_of(package).contains(x)
            && !installed.contains(x) by {
        lemma_missing_exactly(packages_of(package), installed, x);
    }
}

} // verus!
