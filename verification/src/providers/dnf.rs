use vstd::prelude::*;

use super::{runs_with};
use super::PackageProvider;
use crate::contexts::Contexts;
use crate::error::PlanError;
use crate::package::{packages_of, PackageRepository, PackageRepositoryModel, PackageVariant, PackageVariantModel};
use crate::host::locate_executable;
use crate::steps::{privileged_step, privileged_step_model, Step, StepModel};
use crate::text::{concat3, no_pairs, owned_strings};

verus! {

/// The Fedora and Red Hat package manager, `dnf`.
#[derive(Debug, PartialEq, Eq)]
pub struct Dnf {}

/// Adding a repository: import its key when it has one, add the
/// repository, then refresh.
pub open spec fn dnf_add_repository(repository: PackageRepositoryModel, p: Seq<char>) -> Seq<StepModel> {
    let key_steps = match repository.key {
        Some(k) => seq![privileged_step_model("rpm"@, seq!["--import"@, k.url], seq![], p)],
        None => seq![],
    };
    key_steps + seq![
        privileged_step_model(
            "dnf"@,
            seq!["config-manager"@, "--assumeyes"@, "--add-repo"@, repository.name],
            seq![],
            p,
        ),
        privileged_step_model("dnf"@, seq!["update"@, "--assumeyes"@, "--refresh"@], seq![], p),
    ]
}

/// Installing: one quiet `dnf install` of the extra arguments and the packages.
pub open spec fn dnf_install(package: PackageVariantModel, p: Seq<char>) -> Seq<StepModel> {
    seq![
        privileged_step_model(
            "dnf"@,
            seq!["install"@, "--assumeyes"@, "--quiet"@] + package.extra_args + packages_of(package),
            seq![],
            p,
        ),
    ]
}

impl PackageProvider for Dnf {
    open spec fn spec_name(&self) -> Seq<char> {
        "DNF"@
    }

    open spec fn spec_bootstrap(&self, p: Seq<char>) -> Seq<StepModel> {
        seq![privileged_step_model("yum"@, seq!["install"@, "--assumeyes"@, "dnf"@], seq![], p)]
    }

    open spec fn spec_has_repository(&self, repository: PackageRepositoryModel) -> bool {
        false
    }

    open spec fn spec_add_repository(&self, repository: PackageRepositoryModel, p: Seq<char>) -> Seq<StepModel> {
        dnf_add_repository(repository, p)
    }

    open spec fn spec_query(&self, package: PackageVariantModel, installed: Seq<Seq<char>>) -> Seq<Seq<char>> {
        packages_of(package)
    }

    open spec fn install_outcome(
        &self,
        package: PackageVariantModel,
        installed: Seq<Seq<char>>,
        p: Seq<char>,
        steps: Seq<StepModel>,
    ) -> bool {
        steps == dnf_install(package, p)
    }

    fn name(&self) -> (r: &'static str) {
        "DNF"
    }

    fn available(&self) -> bool {
        locate_executable("dnf").is_some()
    }

    fn bootstrap(&self, contexts: &Contexts) -> (r: Vec<Step>) {
        let provider = contexts.privilege_provider_or_sudo();
        let args = owned_strings(&["install", "--assumeyes", "dnf"]);
        assert(args.deep_view() =~= seq!["install"@, "--assumeyes"@, "dnf"@]);
        let r = vec![privileged_step("yum", args, no_pairs(), provider)];
        assert(r.deep_view() =~= self.spec_bootstrap(contexts.privilege()));
        r
    }

    fn has_repository(&self, repository: &PackageRepository) -> (r: bool) {
        false
    }

    fn add_repository(&self, repository: &PackageRepository, contexts: &Contexts) -> (r: Result<Vec<Step>, PlanError>) {
        let provider = contexts.privilege_provider_or_sudo();
        let ghost p = contexts.privilege();
        let ghost repo = repository.deep_view();
        let mut steps: Vec<Step> = match &repository.key {
            Some(key) => {
                let args = vec![String::from_str("--import"), key.url.clone()];
                assert(args.deep_view() =~= seq!["--import"@, key.url@]);
                let s = vec![privileged_step("rpm", args, no_pairs(), provider.clone())];
                assert(s.deep_view() =~= seq![privileged_step_model("rpm"@, seq!["--import"@, key.url@], seq![], p)]);
                s
            },
            None => {
                let s: Vec<Step> = Vec::new();
                assert(s.deep_view() =~= seq![]);
                s
            },
        };
        let ghost key_steps = steps.deep_view();
        let add_args = vec![
            String::from_str("config-manager"),
            String::from_str("--assumeyes"),
            String::from_str("--add-repo"),
            repository.name.clone(),
        ];
        assert(add_args.deep_view() =~= seq!["config-manager"@, "--assumeyes"@, "--add-repo"@, repo.name]);
        let add = privileged_step("dnf", add_args, no_pairs(), provider.clone());
        let update_args = owned_strings(&["update", "--assumeyes", "--refresh"]);
        assert(update_args.deep_view() =~= seq!["update"@, "--assumeyes"@, "--refresh"@]);
        let update = privileged_step("dnf", update_args, no_pairs(), provider);
        let ghost add_v = add.deep_view();
        let ghost update_v = update.deep_view();
        steps.push(add);
        steps.push(update);
        assert(steps.deep_view() =~= key_steps + seq![add_v, update_v]);
        assert(steps.deep_view() =~= dnf_add_repository(repo, p));
        Ok(steps)
    }

    fn query(&self, package: &PackageVariant, installed: &Vec<String>) -> (r: Result<Vec<String>, PlanError>) {
        Ok(package.packages())
    }

    fn install(&self, package: &PackageVariant, installed: &Vec<String>, contexts: &Contexts) -> (r: Result<Vec<Step>, PlanError>) {
        let provider = contexts.privilege_provider_or_sudo();
        let query = match self.query(package, installed) {
            Ok(q) => q,
            Err(e) => return Err(e),
        };
        let head = owned_strings(&["install", "--assumeyes", "--quiet"]);
        assert(head.deep_view() =~= seq!["install"@, "--assumeyes"@, "--quiet"@]);
        let args = concat3(head, &package.extra_args, &query);
        let r = vec![privileged_step("dnf", args, no_pairs(), provider)];
        assert(r.deep_view() =~= dnf_install(package.deep_view(), contexts.privilege()));
        Ok(r)
    }
}

/// Adding a repository with `dnf` takes three steps where the repository
/// has a key (importing the key first) and two where it has none.
pub proof fn lemma_dnf_repository_step_count(repository: PackageRepositoryModel, p: Seq<char>)
    ensures
        dnf_add_repository(repository, p).len() == if repository.key is Some { 3int } else { 2int },
{
}


/// Installing with DNF is one privileged `dnf` step whose arguments are
/// `install --assumeyes --quiet`, then the extra arguments, then every package that the
/// request names, in order (its name, else its list).
pub proof fn lemma_dnf_install_names_every_package(
    provider: Dnf,
    package: PackageVariantModel,
    installed: Seq<Seq<char>>,
    p: Seq<char>,
    steps: Seq<StepModel>,
)
    requires
        provider.install_outcome(package, installed, p, steps),
    ensures
        steps.len() == 1,
        runs_with(steps[0], "dnf"@, seq!["install"@, "--assumeyes"@, "--quiet"@], package.extra_args, packages_of(package)),
        steps[0].atom->Exec_0.privileged == true,
{
}


/// Adding a repository with DNF: where it has a key, one privileged
/// `rpm --import` of the key's URL first; then a privileged
/// `dnf config-manager --assumeyes --add-repo` of the repository's name,
/// then a refreshing `dnf update`.
pub proof fn lemma_dnf_repository_adds_the_named_repository(
    provider: Dnf,
    repository: PackageRepositoryModel,
    p: Seq<char>,
)
    ensures
        ({
            let steps = provider.spec_add_repository(repository, p);
            let n = steps.len();
            &&& n == if repository.key is Some { 3int } else { 2int }
            &&& steps[n - 2].atom is Exec && steps[n - 2].atom->Exec_0.command == "dnf"@
            &&& steps[n - 2].atom->Exec_0.privileged
            &&& steps[n - 2].atom->Exec_0.arguments == seq![
                "config-manager"@,
                "--assumeyes"@,
                "--add-repo"@,
                repository.name,
            ]
            &&& steps[n - 1].atom is Exec && steps[n - 1].atom->Exec_0.command == "dnf"@
            &&& steps[n - 1].atom->Exec_0.arguments == seq!["update"@, "--assumeyes"@, "--refresh"@]
            &&& repository.key is Some ==> steps[0].atom is Exec && steps[0].atom->Exec_0.command == "rpm"@
                && steps[0].atom->Exec_0.arguments == seq!["--import"@, repository.key->0.url]
        }),
{
}

} // verus!
