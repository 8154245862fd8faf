use vstd::prelude::*;

use super::PackageProvider;
use crate::contexts::Contexts;
use crate::error::PlanError;
use crate::host::{locate_executable, sha256_digest, sha256_hex};
use crate::package::{
    packages_of, PackageRepository, PackageRepositoryModel, PackageVariant, PackageVariantModel,
    RepositoryKeyModel,
};
use crate::steps::{privileged_step, privileged_step_model, AtomModel, Step, StepModel};
use crate::text::{concat3, owned_strings};

verus! {

/// The Debian package manager, driven through `apt`.
#[derive(Debug, PartialEq, Eq)]
pub struct Aptitude {}

/// The environment of every `apt` command.
pub open spec fn apt_env() -> Seq<(Seq<char>, Seq<char>)> {
    seq![("DEBIAN_FRONTEND"@, "noninteractive"@)]
}

/// Where the signing key of a repository is stored: under its own name
/// when it has one, else under the digest of its URL.
pub open spec fn apt_key_path(key: RepositoryKeyModel) -> Seq<char> {
    let key_name = match key.name {
        Some(n) => n,
        None => sha256_digest(key.url),
    };
    "/usr/share/keyrings/"@ + key_name + ".asc"@
}

/// The `signed-by` option of a repository line.
pub open spec fn apt_signed_by(repository: PackageRepositoryModel) -> Seq<char> {
    match repository.key {
        Some(k) => "signed-by="@ + apt_key_path(k),
        None => seq![],
    }
}

/// Adding a repository: fetch its key when it has one, add the repository
/// line, then update the package lists.
pub open spec fn apt_add_repository(repository: PackageRepositoryModel, p: Seq<char>) -> Seq<
    StepModel,
> {
    let key_steps = match repository.key {
        Some(k) => seq![
            privileged_step_model("curl"@, seq!["-o"@, apt_key_path(k), k.url], apt_env(), p),
        ],
        None => seq![],
    };
    key_steps + seq![
        privileged_step_model(
            "apt-add-repository"@,
            seq![
                "-y"@,
                "deb [arch=$(dpkg --print-architecture) "@ + apt_signed_by(repository) + "] "@
                    + repository.name,
            ],
            apt_env(),
            p,
        ),
        privileged_step_model("apt"@, seq!["update"@], apt_env(), p),
    ]
}

/// Installing: one `apt install --yes` of the extra arguments and the packages.
pub open spec fn apt_install(package: PackageVariantModel, p: Seq<char>) -> Seq<StepModel> {
    seq![
        privileged_step_model(
            "apt"@,
            seq!["install"@, "--yes"@] + package.extra_args + packages_of(package),
            apt_env(),
            p,
        ),
    ]
}

impl Aptitude {
    pub fn env(&self) -> (r: Vec<(String, String)>)
        ensures
            r.deep_view() == apt_env(),
    {
        let r = vec![(String::from_str("DEBIAN_FRONTEND"), String::from_str("noninteractive"))];
        assert(r.deep_view() =~= apt_env());
        r
    }
}

impl PackageProvider for Aptitude {
    open spec fn spec_name(&self) -> Seq<char> {
        "Aptitude"@
    }

    open spec fn spec_bootstrap(&self, p: Seq<char>) -> Seq<StepModel> {
        seq![
            privileged_step_model(
                "apt"@,
                seq!["install"@, "--yes"@, "software-properties-common"@, "curl"@, "gpg"@],
                apt_env(),
                p,
            ),
        ]
    }

    open spec fn spec_has_repository(&self, repository: PackageRepositoryModel) -> bool {
        false
    }

    open spec fn spec_add_repository(&self, repository: PackageRepositoryModel, p: Seq<char>) -> Seq<
        StepModel,
    > {
        apt_add_repository(repository, p)
    }

    open spec fn spec_query(&self, package: PackageVariantModel, installed: Seq<Seq<char>>) -> Seq<
        Seq<char>,
    > {
        packages_of(package)
    }

    open spec fn install_outcome(
        &self,
        package: PackageVariantModel,
        installed: Seq<Seq<char>>,
        p: Seq<char>,
        steps: Seq<StepModel>,
    ) -> bool {
        steps == apt_install(package, p)
    }

    fn name(&self) -> (r: &'static str) {
        "Aptitude"
    }

    fn available(&self) -> bool {
        locate_executable("apt-add-repository").is_some()
    }

    fn bootstrap(&self, contexts: &Contexts) -> (r: Vec<Step>) {
        let provider = contexts.privilege_provider_or_sudo();
        let args = owned_strings(&["install", "--yes", "software-properties-common", "curl", "gpg"]);
        assert(args.deep_view() =~= seq!["install"@, "--yes"@, "software-properties-common"@, "curl"@, "gpg"@]);
        let r = vec![privileged_step("apt", args, self.env(), provider)];
        assert(r.deep_view() =~= self.spec_bootstrap(contexts.privilege()));
        r
    }

    fn has_repository(&self, repository: &PackageRepository) -> (r: bool) {
        false
    }

    fn add_repository(&self, repository: &PackageRepository, contexts: &Contexts) -> (r: Result<
        Vec<Step>,
        PlanError,
    >) {
        let provider = contexts.privilege_provider_or_sudo();
        let ghost p = contexts.privilege();
        let ghost repo = repository.deep_view();
        let (mut steps, signed_by) = match &repository.key {
            Some(key) => {
                let key_name = match &key.name {
                    Some(n) => n.clone(),
                    None => sha256_hex(key.url.as_str()),
                };
                let key_path = String::from_str("/usr/share/keyrings/").concat(
                    key_name.as_str(),
                ).concat(".asc");
                assert(key_path@ == apt_key_path(key.deep_view()));
                let signed_by = String::from_str("signed-by=").concat(key_path.as_str());
                let args = vec![String::from_str("-o"), key_path, key.url.clone()];
                assert(args.deep_view() =~= seq!["-o"@, apt_key_path(key.deep_view()), key.url@]);
                let s = vec![privileged_step("curl", args, self.env(), provider.clone())];
                assert(s.deep_view() =~= seq![
                    privileged_step_model("curl"@, seq!["-o"@, apt_key_path(key.deep_view()), key.url@], apt_env(), p),
                ]);
                (s, signed_by)
            },
            None => {
                let s: Vec<Step> = Vec::new();
                assert(s.deep_view() =~= seq![]);
                (s, String::new())
            },
        };
        assert(signed_by@ == apt_signed_by(repo));
        let ghost key_steps = steps.deep_view();
        let line = String::from_str("deb [arch=$(dpkg --print-architecture) ").concat(
            signed_by.as_str(),
        ).concat("] ").concat(repository.name.as_str());
        let add_args = vec![String::from_str("-y"), line];
        assert(add_args.deep_view() =~= seq![
            "-y"@,
            "deb [arch=$(dpkg --print-architecture) "@ + apt_signed_by(repo) + "] "@ + repo.name,
        ]);
        let add = privileged_step("apt-add-repository", add_args, self.env(), provider.clone());
        let update_args = vec![String::from_str("update")];
        assert(update_args.deep_view() =~= seq!["update"@]);
        let update = privileged_step("apt", update_args, self.env(), provider);
        let ghost add_v = add.deep_view();
        let ghost update_v = update.deep_view();
        steps.push(add);
        steps.push(update);
        assert(steps.deep_view() =~= key_steps + seq![add_v, update_v]);
        assert(steps.deep_view() =~= apt_add_repository(repo, p));
        Ok(steps)
    }

    fn query(&self, package: &PackageVariant, installed: &Vec<String>) -> (r: Result<
        Vec<String>,
        PlanError,
    >) {
        Ok(package.packages())
    }

    fn install(&self, package: &PackageVariant, installed: &Vec<String>, contexts: &Contexts) -> (r:
        Result<Vec<Step>, PlanError>) {
        let provider = contexts.privilege_provider_or_sudo();
        let head = owned_strings(&["install", "--yes"]);
        assert(head.deep_view() =~= seq!["install"@, "--yes"@]);
        let args = concat3(head, &package.extra_args, &package.packages());
        let r = vec![privileged_step("apt", args, self.env(), provider)];
        assert(r.deep_view() =~= apt_install(package.deep_view(), contexts.privilege()));
        Ok(r)
    }
}

/// Adding a repository with `apt` takes three steps where the repository
/// has a key (fetching the key first) and two where it has none.
pub proof fn lemma_apt_repository_step_count(repository: PackageRepositoryModel, p: Seq<char>)
    ensures
        apt_add_repository(repository, p).len() == if repository.key is Some { 3int } else { 2int },
{
}

/// Installing with apt is one privileged `apt` step whose arguments are
/// `install --yes`, then the extra arguments, then every package that the
/// request names, in order (its name, else its list).
pub proof fn lemma_apt_install_names_every_package(
    apt: Aptitude,
    package: PackageVariantModel,
    installed: Seq<Seq<char>>,
    p: Seq<char>,
    steps: Seq<StepModel>,
)
    requires
        apt.install_outcome(package, installed, p, steps),
    ensures
        steps.len() == 1,
        steps[0].atom matches AtomModel::Exec(e) && {
            let extra = package.extra_args;
            let names = packages_of(package);
            &&& e.command == "apt"@
            &&& e.privileged
            &&& e.privilege_provider == p
            &&& e.arguments.len() == 2 + extra.len() + names.len()
            &&& e.arguments[0] == "install"@
            &&& e.arguments[1] == "--yes"@
            &&& forall|k: int| 0 <= k < extra.len() ==> e.arguments[2 + k] == #[trigger] extra[k]
            &&& forall|i: int| 0 <= i < names.len() ==> e.arguments[2 + extra.len() + i] == #[trigger] names[i]
        },
        package.name is Some ==> steps[0].atom->Exec_0.arguments.last() == package.name->0,
{
}

/// Adding a repository with apt ends with two privileged steps: an
/// `apt-add-repository -y` of a `deb` line that ends with the repository's
/// name, then `apt update`; where the repository has a key, they follow
/// one step that downloads the key from its URL.
pub proof fn lemma_apt_repository_line_names_the_repository(
    apt: Aptitude,
    repository: PackageRepositoryModel,
    p: Seq<char>,
)
    ensures
        ({
            let steps = apt.spec_add_repository(repository, p);
            let name = repository.name;
            &&& steps.len() == if repository.key is Some { 3int } else { 2int }
            &&& steps[steps.len() - 2].atom matches AtomModel::Exec(e) && {
                &&& e.command == "apt-add-repository"@
                &&& e.privileged
                &&& e.arguments.len() == 2
                &&& e.arguments[0] == "-y"@
                &&& e.arguments[1].len() >= name.len()
                &&& e.arguments[1].subrange(e.arguments[1].len() - name.len(), e.arguments[1].len() as int) == name
                &&& e.arguments[1].subrange(0, 39) == "deb [arch=$(dpkg --print-architecture) "@.subrange(0, 39)
            }
            &&& steps[steps.len() - 1].atom matches AtomModel::Exec(u) && u.command == "apt"@ && u.arguments
                == seq!["update"@]
            &&& repository.key is Some ==> steps[0].atom is Exec && steps[0].atom->Exec_0.command == "curl"@
                && steps[0].atom->Exec_0.arguments.last() == repository.key->0.url
        }),
{
    reveal_strlit("deb [arch=$(dpkg --print-architecture) ");
    let line = "deb [arch=$(dpkg --print-architecture) "@ + apt_signed_by(repository) + "] "@ + repository.name;
    let prefix = "deb [arch=$(dpkg --print-architecture) "@ + apt_signed_by(repository) + "] "@;
    assert(line == prefix + repository.name);
    assert(line.subrange(prefix.len() as int, line.len() as int) =~= repository.name);
    assert(line.subrange(0, 39) =~= "deb [arch=$(dpkg --print-architecture) "@.subrange(0, 39));
}

} // verus!
