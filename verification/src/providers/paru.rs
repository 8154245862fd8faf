use vstd::prelude::*;

use super::{runs_with};
use super::{missing, not_installed, PackageProvider};
use crate::contexts::Contexts;
use crate::error::PlanError;
use crate::host::locate_executable;
use crate::package::{packages_of, PackageRepository, PackageRepositoryModel, PackageVariant, PackageVariantModel};
use crate::steps::{exec_step, exec_step_model, plain_step, plain_step_model, privileged_step, privileged_step_model, Step, StepModel};
use crate::text::{concat3, no_pairs, owned_strings};

verus! {

/// The Arch user-repository helper `paru`.
#[derive(Debug, PartialEq, Eq)]
pub struct Paru {}

/// Bootstrapping: install the build tools with `pacman`, clone the
/// helper's sources and build them with `makepkg` in the clone.
pub open spec fn paru_bootstrap(p: Seq<char>) -> Seq<StepModel> {
    seq![
        privileged_step_model("pacman"@, seq!["-S"@, "--noconfirm"@, "--needed"@, "base-devel"@, "git"@], seq![], p),
        plain_step_model("git"@, seq!["clone"@, "https://aur.archlinux.org/paru.git"@, "/tmp/paru"@]),
        exec_step_model("makepkg"@, seq!["-si"@, "--noconfirm"@], false, seq![], Some("/tmp/paru"@)),
    ]
}

/// Installing: one `paru` run, in batch and without questions, of the
/// extra arguments and every requested package.
pub open spec fn paru_install(package: PackageVariantModel) -> Seq<StepModel> {
    seq![plain_step_model("paru"@, paru_flags() + package.extra_args + packages_of(package))]
}

/// The flags of every `paru` installation.
pub open spec fn paru_flags() -> Seq<Seq<char>> {
    seq![
        "-Sq"@,
        "--sudoflags"@,
        "-S"@,
        "--batchinstall"@,
        "--needed"@,
        "--noconfirm"@,
        "--noprogressbar"@,
        "--skipreview"@,
        "--useask"@,
    ]
}

impl PackageProvider for Paru {
    open spec fn spec_name(&self) -> Seq<char> {
        "Paru"@
    }

    open spec fn spec_bootstrap(&self, p: Seq<char>) -> Seq<StepModel> {
        paru_bootstrap(p)
    }

    open spec fn spec_has_repository(&self, repository: PackageRepositoryModel) -> bool {
        false
    }

    open spec fn spec_add_repository(&self, repository: PackageRepositoryModel, p: Seq<char>) -> Seq<StepModel> {
        seq![]
    }

    open spec fn spec_query(&self, package: PackageVariantModel, installed: Seq<Seq<char>>) -> Seq<Seq<char>> {
        missing(packages_of(package), installed)
    }

    open spec fn install_outcome(
        &self,
        package: PackageVariantModel,
        installed: Seq<Seq<char>>,
        p: Seq<char>,
        steps: Seq<StepModel>,
    ) -> bool {
        steps == paru_install(package)
    }

    fn name(&self) -> (r: &'static str) {
        "Paru"
    }

    fn available(&self) -> bool {
        locate_executable("paru").is_some()
    }

    fn bootstrap(&self, contexts: &Contexts) -> (r: Vec<Step>) {
        let provider = contexts.privilege_provider_or_sudo();
        let pacman_args = owned_strings(&["-S", "--noconfirm", "--needed", "base-devel", "git"]);
        assert(pacman_args.deep_view() =~= seq!["-S"@, "--noconfirm"@, "--needed"@, "base-devel"@, "git"@]);
        let clone_args = owned_strings(&["clone", "https://aur.archlinux.org/paru.git", "/tmp/paru"]);
        assert(clone_args.deep_view() =~= seq!["clone"@, "https://aur.archlinux.org/paru.git"@, "/tmp/paru"@]);
        let make_args = owned_strings(&["-si", "--noconfirm"]);
        assert(make_args.deep_view() =~= seq!["-si"@, "--noconfirm"@]);
        let r = vec![
            privileged_step("pacman", pacman_args, no_pairs(), provider),
            plain_step("git", clone_args),
            exec_step(String::from_str("makepkg"), make_args, false, String::new(), Some(String::from_str("/tmp/paru"))),
        ];
        assert(r.deep_view() =~= paru_bootstrap(contexts.privilege()));
        r
    }

    fn has_repository(&self, repository: &PackageRepository) -> (r: bool) {
        false
    }

    fn add_repository(&self, repository: &PackageRepository, contexts: &Contexts) -> (r: Result<Vec<Step>, PlanError>) {
        let r: Vec<Step> = Vec::new();
        assert(r.deep_view() =~= seq![]);
        Ok(r)
    }

    fn query(&self, package: &PackageVariant, installed: &Vec<String>) -> (r: Result<Vec<String>, PlanError>) {
        Ok(not_installed(package, installed))
    }

    fn install(&self, package: &PackageVariant, installed: &Vec<String>, contexts: &Contexts) -> (r: Result<Vec<Step>, PlanError>) {
        let head = owned_strings(&["-Sq", "--sudoflags", "-S", "--batchinstall", "--needed", "--noconfirm", "--noprogressbar", "--skipreview", "--useask"]);
        assert(head.deep_view() =~= paru_flags());
        let args = concat3(head, &package.extra_args, &package.packages());
        let r = vec![plain_step("paru", args)];
        assert(r.deep_view() =~= paru_install(package.deep_view()));
        Ok(r)
    }
}


/// Installing with paru is one `paru` step whose arguments are its flags,
/// then the extra arguments, then every package that the request names, in
/// order.
pub proof fn lemma_paru_install_names_every_package(
    provider: Paru,
    package: PackageVariantModel,
    installed: Seq<Seq<char>>,
    p: Seq<char>,
    steps: Seq<StepModel>,
)
    requires
        provider.install_outcome(package, installed, p, steps),
    ensures
        steps.len() == 1,
        runs_with(steps[0], "paru"@, paru_flags(), package.extra_args, packages_of(package)),
{
}

} // verus!
