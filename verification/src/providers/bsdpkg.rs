use vstd::prelude::*;

use super::{runs_with};
use super::PackageProvider;
use crate::contexts::Contexts;
use crate::error::PlanError;
use crate::package::{packages_of, PackageRepository, PackageRepositoryModel, PackageVariant, PackageVariantModel};
use crate::host::locate_executable;
use crate::steps::{
    privileged_exec, privileged_step, privileged_step_model, Atom, AtomModel, Exec, Finalizer,
    FinalizerCheck, FinalizerCheckModel, FinalizerModel, Step, StepModel,
};
use crate::text::{concat3, no_pairs, owned_strings};

verus! {

/// The FreeBSD package manager, `pkg`.
#[derive(Debug, PartialEq, Eq)]
pub struct BsdPkg {}

/// The environment of the bootstrap command.
pub open spec fn bsdpkg_env() -> Seq<(Seq<char>, Seq<char>)> {
    seq![("ASSUME_ALWAYS_YES"@, "true"@)]
}

/// Installing: from local files, one `pkg add`; else `pkg install -y`
/// twice, the first stopping the action when its output reports removals.
pub open spec fn bsdpkg_install(package: PackageVariantModel, p: Seq<char>) -> Seq<StepModel> {
    if package.file {
        seq![
            privileged_step_model(
                "/usr/sbin/pkg"@,
                seq!["add"@] + package.extra_args + packages_of(package),
                seq![],
                p,
            ),
        ]
    } else {
        let exec = privileged_exec(
            "/usr/sbin/pkg"@,
            seq!["install"@, "-y"@] + package.extra_args + packages_of(package),
            seq![],
            p,
        );
        seq![
            StepModel {
                atom: AtomModel::Exec(exec),
                initializers: seq![],
                finalizers: seq![FinalizerModel::StopIf(FinalizerCheckModel::OutputContains("removed"@))],
            },
            StepModel { atom: AtomModel::Exec(exec), initializers: seq![], finalizers: seq![] },
        ]
    }
}

impl BsdPkg {
    pub fn env(&self) -> (r: Vec<(String, String)>)
        ensures
            r.deep_view() == bsdpkg_env(),
    {
        let r = vec![(String::from_str("ASSUME_ALWAYS_YES"), String::from_str("true"))];
        assert(r.deep_view() =~= bsdpkg_env());
        r
    }

    fn install_exec(package: &PackageVariant, provider: &String) -> (e: Exec)
        ensures
            e.deep_view() == privileged_exec(
                "/usr/sbin/pkg"@,
                seq!["install"@, "-y"@] + package.deep_view().extra_args + packages_of(package.deep_view()),
                seq![],
                provider@,
            ),
    {
        let head = owned_strings(&["install", "-y"]);
        assert(head.deep_view() =~= seq!["install"@, "-y"@]);
        let e = Exec {
            command: String::from_str("/usr/sbin/pkg"),
            arguments: concat3(head, &package.extra_args, &package.packages()),
            environment: Vec::new(),
            privileged: true,
            privilege_provider: provider.clone(),
            working_dir: None,
        };
        assert(e.environment.deep_view() =~= seq![]);
        e
    }
}

impl PackageProvider for BsdPkg {
    open spec fn spec_name(&self) -> Seq<char> {
        "BsdPkg"@
    }

    open spec fn spec_bootstrap(&self, p: Seq<char>) -> Seq<StepModel> {
        seq![privileged_step_model("/usr/sbin/pkg"@, seq!["bootstrap"@], bsdpkg_env(), p)]
    }

    open spec fn spec_has_repository(&self, repository: PackageRepositoryModel) -> bool {
        false
    }

    open spec fn spec_add_repository(&self, repository: PackageRepositoryModel, p: Seq<char>) -> Seq<StepModel> {
        seq![]
    }

    open spec fn spec_query(&self, package: PackageVariantModel, installed: Seq<Seq<char>>) -> Seq<Seq<char>> {
        packages_of(package)
    }

    open spec fn install_outcome(
        &self,
        package: PackageVariantModel,
        installed: Seq<Seq<char>>,
        p: Seq<char>,
        steps: Seq<StepModel>,
    ) -> bool {
        steps == bsdpkg_install(package, p)
    }

    fn name(&self) -> (r: &'static str) {
        "BsdPkg"
    }

    fn available(&self) -> bool {
        locate_executable("/usr/local/sbin/pkg").is_some()
    }

    fn bootstrap(&self, contexts: &Contexts) -> (r: Vec<Step>) {
        let provider = contexts.privilege_provider_or_sudo();
        let args = vec![String::from_str("bootstrap")];
        assert(args.deep_view() =~= seq!["bootstrap"@]);
        let r = vec![privileged_step("/usr/sbin/pkg", args, self.env(), provider)];
        assert(r.deep_view() =~= self.spec_bootstrap(contexts.privilege()));
        r
    }

    fn has_repository(&self, repository: &PackageRepository) -> (r: bool) {
        false
    }

    fn add_repository(&self, repository: &PackageRepository, contexts: &Contexts) -> (r: Result<Vec<Step>, PlanError>) {
        let r: Vec<Step> = Vec::new();
        assert(r.deep_view() =~= seq![]);
        Ok(r)
    }

    fn query(&self, package: &PackageVariant, installed: &Vec<String>) -> (r: Result<Vec<String>, PlanError>) {
        Ok(package.packages())
    }

    fn install(&self, package: &PackageVariant, installed: &Vec<String>, contexts: &Contexts) -> (r: Result<Vec<Step>, PlanError>) {
        let provider = contexts.privilege_provider_or_sudo();
        if package.file {
            let head = vec![String::from_str("add")];
            assert(head.deep_view() =~= seq!["add"@]);
            let args = concat3(head, &package.extra_args, &package.packages());
            let r = vec![privileged_step("/usr/sbin/pkg", args, no_pairs(), provider)];
            assert(r.deep_view() =~= bsdpkg_install(package.deep_view(), contexts.privilege()));
            return Ok(r);
        }
        let first = Step {
            atom: Atom::Exec(BsdPkg::install_exec(package, &provider)),
            initializers: Vec::new(),
            finalizers: vec![Finalizer::StopIf(FinalizerCheck::OutputContains(String::from_str("removed")))],
        };
        let second = Step::bare(Atom::Exec(BsdPkg::install_exec(package, &provider)));
        assert(first.initializers.deep_view() =~= seq![]);
        assert(first.finalizers.deep_view() =~= seq![FinalizerModel::StopIf(FinalizerCheckModel::OutputContains("removed"@))]);
        let r = vec![first, second];
        assert(r.deep_view() =~= bsdpkg_install(package.deep_view(), contexts.privilege()));
        Ok(r)
    }
}


/// Installing with pkg runs `/usr/sbin/pkg` with privileges: once, `add` of
/// the local files; or twice, `install -y` of the packages, the first run
/// stopping the rest where its output mentions a removal. The arguments go
/// on with the extra arguments, then every package that the request names,
/// in order.
pub proof fn lemma_pkg_install_names_every_package(
    provider: BsdPkg,
    package: PackageVariantModel,
    installed: Seq<Seq<char>>,
    p: Seq<char>,
    steps: Seq<StepModel>,
)
    requires
        provider.install_outcome(package, installed, p, steps),
    ensures
        package.file ==> steps.len() == 1 && runs_with(
            steps[0],
            "/usr/sbin/pkg"@,
            seq!["add"@],
            package.extra_args,
            packages_of(package),
        ),
        !package.file ==> steps.len() == 2 && steps[0].finalizers == seq![
            FinalizerModel::StopIf(FinalizerCheckModel::OutputContains("removed"@)),
        ] && forall|i: int|
            0 <= i < 2 ==> runs_with(
                #[trigger] steps[i],
                "/usr/sbin/pkg"@,
                seq!["install"@, "-y"@],
                package.extra_args,
                packages_of(package),
            ),
        forall|i: int| 0 <= i < steps.len() ==> (#[trigger] steps[i]).atom->Exec_0.privileged,
{
}

} // verus!
