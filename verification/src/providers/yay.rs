use vstd::prelude::*;

use super::{runs_with, lemma_missing_exactly};
use super::{missing, not_installed, PackageProvider};
use crate::contexts::Contexts;
use crate::error::PlanError;
use crate::host::locate_executable;
use crate::package::{packages_of, PackageRepository, PackageRepositoryModel, PackageVariant, PackageVariantModel};
use crate::steps::{exec_step, exec_step_model, plain_step, plain_step_model, privileged_step, privileged_step_model, Step, StepModel};
use crate::text::{concat3, no_pairs, owned_strings};

verus! {

/// The Arch user-repository helper `yay`.
#[derive(Debug, PartialEq, Eq)]
pub struct Yay {}

/// Bootstrapping: install the build tools with `pacman`, clone the
/// helper's sources and build them with `makepkg` in the clone.
pub open spec fn yay_bootstrap(p: Seq<char>) -> Seq<StepModel> {
    seq![
        privileged_step_model("pacman"@, seq!["-S"@, "--noconfirm"@, "base-devel"@, "git"@], seq![], p),
        plain_step_model("git"@, seq!["clone"@, "https://aur.archlinux.org/yay.git"@, "/tmp/yay"@]),
        exec_step_model("makepkg"@, seq!["-si"@, "--noconfirm"@], false, seq![], Some("/tmp/yay"@)),
    ]
}

/// Installing: nothing when every package is installed already, else one
/// `yay -S --noconfirm` of the extra arguments and the missing packages.
pub open spec fn yay_install(package: PackageVariantModel, installed: Seq<Seq<char>>) -> Seq<StepModel> {
    let need = missing(packages_of(package), installed);
    if need.len() == 0 {
        seq![]
    } else {
        seq![plain_step_model("yay"@, seq!["-S"@, "--noconfirm"@] + package.extra_args + need)]
    }
}

impl PackageProvider for Yay {
    open spec fn spec_name(&self) -> Seq<char> {
        "Yay"@
    }

    open spec fn spec_bootstrap(&self, p: Seq<char>) -> Seq<StepModel> {
        yay_bootstrap(p)
    }

    open spec fn spec_has_repository(&self, repository: PackageRepositoryModel) -> bool {
        false
    }

    open spec fn spec_add_repository(&self, repository: PackageRepositoryModel, p: Seq<char>) -> Seq<StepModel> {
        seq![]
    }

    open spec fn spec_query(&self, package: PackageVariantModel, installed: Seq<Seq<char>>) -> Seq<Seq<char>> {
        missing(packages_of(package), installed)
    }

    open spec fn install_outcome(
        &self,
        package: PackageVariantModel,
        installed: Seq<Seq<char>>,
        p: Seq<char>,
        steps: Seq<StepModel>,
    ) -> bool {
        steps == yay_install(package, installed)
    }

    fn name(&self) -> (r: &'static str) {
        "Yay"
    }

    fn available(&self) -> bool {
        locate_executable("yay").is_some()
    }

    fn bootstrap(&self, contexts: &Contexts) -> (r: Vec<Step>) {
        let provider = contexts.privilege_provider_or_sudo();
        let pacman_args = owned_strings(&["-S", "--noconfirm", "base-devel", "git"]);
        assert(pacman_args.deep_view() =~= seq!["-S"@, "--noconfirm"@, "base-devel"@, "git"@]);
        let clone_args = owned_strings(&["clone", "https://aur.archlinux.org/yay.git", "/tmp/yay"]);
        assert(clone_args.deep_view() =~= seq!["clone"@, "https://aur.archlinux.org/yay.git"@, "/tmp/yay"@]);
        let make_args = owned_strings(&["-si", "--noconfirm"]);
        assert(make_args.deep_view() =~= seq!["-si"@, "--noconfirm"@]);
        let r = vec![
            privileged_step("pacman", pacman_args, no_pairs(), provider),
            plain_step("git", clone_args),
            exec_step(String::from_str("makepkg"), make_args, false, String::new(), Some(String::from_str("/tmp/yay"))),
        ];
        assert(r.deep_view() =~= yay_bootstrap(contexts.privilege()));
        r
    }

    fn has_repository(&self, repository: &PackageRepository) -> (r: bool) {
        false
    }

    fn add_repository(&self, repository: &PackageRepository, contexts: &Contexts) -> (r: Result<Vec<Step>, PlanError>) {
        let r: Vec<Step> = Vec::new();
        assert(r.deep_view() =~= seq![]);
        Ok(r)
    }

    fn query(&self, package: &PackageVariant, installed: &Vec<String>) -> (r: Result<Vec<String>, PlanError>) {
        Ok(not_installed(package, installed))
    }

    fn install(&self, package: &PackageVariant, installed: &Vec<String>, contexts: &Contexts) -> (r: Result<Vec<Step>, PlanError>) {
        let need = not_installed(package, installed);
        if need.len() == 0 {
            let r: Vec<Step> = Vec::new();
            assert(r.deep_view() =~= seq![]);
            return Ok(r);
        }
        let head = owned_strings(&["-S", "--noconfirm"]);
        assert(head.deep_view() =~= seq!["-S"@, "--noconfirm"@]);
        let args = concat3(head, &package.extra_args, &need);
        let r = vec![plain_step("yay", args)];
        assert(r.deep_view() =~= yay_install(package.deep_view(), installed.deep_view()));
        Ok(r)
    }
}


/// Installing with yay: nothing when every package that the request
/// names is installed already; else one `yay` step whose arguments are
/// `-S --noconfirm`, then the extra arguments, then exactly the packages
/// that are not installed yet, in order.
pub proof fn lemma_yay_installs_exactly_the_missing_packages(
    provider: Yay,
    package: PackageVariantModel,
    installed: Seq<Seq<char>>,
    p: Seq<char>,
    steps: Seq<StepModel>,
)
    requires
        provider.install_outcome(package, installed, p, steps),
    ensures
        (forall|x: Seq<char>| packages_of(package).contains(x) ==> installed.contains(x)) ==> steps.len() == 0,
        (exists|x: Seq<char>| packages_of(package).contains(x) && !installed.contains(x)) ==> {
            &&& steps.len() == 1
            &&& runs_with(steps[0], "yay"@, seq!["-S"@, "--noconfirm"@], package.extra_args, missing(packages_of(package), installed))
        },
        forall|x: Seq<char>|
            #[trigger] missing(packages_of(package), installed).contains(x) <==> packages_of(package).contains(x)
                && !installed.contains(x),
{
    let need = missing(packages_of(package), installed);
    assert forall|x: Seq<char>|
        #[trigger] need.contains(x) <==> packages_of(package).contains(x) && !installed.contains(x) by {
        lemma_missing_exactly(packages_of(package), installed, x);
    }
    if need.len() > 0 {
        assert(need.contains(need[0]));
    }
    if exists|x: Seq<char>| packages_of(package).contains(x) && !installed.contains(x) {
        let x = choose|x: Seq<char>| packages_of(package).contains(x) && !installed.contains(x);
        assert(need.contains(x));
    }
}

} // verus!
