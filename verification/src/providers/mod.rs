use vstd::prelude::*;

use crate::contexts::Contexts;
use crate::error::PlanError;
use crate::package::{
    packages_of, PackageProviders, PackageRepository, PackageRepositoryModel, PackageVariant,
    PackageVariantModel,
};
use crate::steps::{AtomModel, Step, StepModel};
use crate::text::str_eq;

mod aptitude;
mod bsdpkg;
mod dnf;
mod homebrew;
mod luarocks;
mod macports;
mod paru;
mod winget;
mod xbps;
mod yay;
mod zypper;

pub use aptitude::Aptitude;
pub use bsdpkg::BsdPkg;
pub use dnf::Dnf;
pub use homebrew::Homebrew;
pub use luarocks::LuaRocks;
pub use macports::Macports;
pub use paru::Paru;
pub use winget::Winget;
pub use xbps::Xbps;
pub use yay::Yay;
pub use zypper::Zypper;

verus! {

/// What a package manager contributes to planning: how to bootstrap it,
/// add repositories and install packages. `installed` lists the packages
/// that a probe of the host found already installed; providers that do not
/// probe ignore it.
pub trait PackageProvider {
    spec fn spec_name(&self) -> Seq<char>;

    spec fn spec_bootstrap(&self, privilege: Seq<char>) -> Seq<StepModel>;

    spec fn spec_has_repository(&self, repository: PackageRepositoryModel) -> bool;

    spec fn spec_add_repository(
        &self,
        repository: PackageRepositoryModel,
        privilege: Seq<char>,
    ) -> Seq<StepModel>;

    spec fn spec_query(&self, package: PackageVariantModel, installed: Seq<Seq<char>>) -> Seq<
        Seq<char>,
    >;

    /// Whether `steps` is an installation this provider may plan.
    spec fn install_outcome(
        &self,
        package: PackageVariantModel,
        installed: Seq<Seq<char>>,
        privilege: Seq<char>,
        steps: Seq<StepModel>,
    ) -> bool;

    fn name(&self) -> (r: &'static str)
        ensures
            r@ == self.spec_name(),
    ;

    /// Whether the package manager is installed on this host.
    fn available(&self) -> bool;

    fn bootstrap(&self, contexts: &Contexts) -> (r: Vec<Step>)
        ensures
            r.deep_view() == self.spec_bootstrap(contexts.privilege()),
    ;

    fn has_repository(&self, repository: &PackageRepository) -> (r: bool)
        ensures
            r == self.spec_has_repository(repository.deep_view()),
    ;

    fn add_repository(&self, repository: &PackageRepository, contexts: &Contexts) -> (r: Result<
        Vec<Step>,
        PlanError,
    >)
        ensures
            r matches Ok(s) && s.deep_view() == self.spec_add_repository(
                repository.deep_view(),
                contexts.privilege(),
            ),
    ;

    fn query(&self, package: &PackageVariant, installed: &Vec<String>) -> (r: Result<
        Vec<String>,
        PlanError,
    >)
        ensures
            r matches Ok(q) && q.deep_view() == self.spec_query(
                package.deep_view(),
                installed.deep_view(),
            ),
    ;

    fn install(&self, package: &PackageVariant, installed: &Vec<String>, contexts: &Contexts) -> (r:
        Result<Vec<Step>, PlanError>)
        ensures
            r matches Ok(s) && self.install_outcome(
                package.deep_view(),
                installed.deep_view(),
                contexts.privilege(),
                s.deep_view(),
            ),
    ;
}

/// Whether `step` runs `command` with arguments made of `head`, then the
/// extra arguments `extra`, then `names`, each in order.
pub open spec fn runs_with(
    step: StepModel,
    command: Seq<char>,
    head: Seq<Seq<char>>,
    extra: Seq<Seq<char>>,
    names: Seq<Seq<char>>,
) -> bool {
    &&& step.atom is Exec
    &&& step.atom->Exec_0.command == command
    &&& step.atom->Exec_0.arguments.len() == head.len() + extra.len() + names.len()
    &&& forall|i: int| 0 <= i < head.len() ==> step.atom->Exec_0.arguments[i] == #[trigger] head[i]
    &&& forall|k: int| 0 <= k < extra.len() ==> step.atom->Exec_0.arguments[head.len() + k] == #[trigger] extra[k]
    &&& forall|i: int|
        0 <= i < names.len() ==> step.atom->Exec_0.arguments[head.len() + extra.len() + i] == #[trigger] names[i]
}

/// The packages that still need installing are exactly those of `packages`
/// that are not in `installed`.
pub proof fn lemma_missing_exactly(packages: Seq<Seq<char>>, installed: Seq<Seq<char>>, x: Seq<char>)
    ensures
        missing(packages, installed).contains(x) <==> packages.contains(x) && !installed.contains(x),
    decreases packages.len(),
{
    if packages.len() > 0 {
        let init = packages.drop_last();
        lemma_missing_exactly(init, installed, x);
        let rest = missing(init, installed);
        if packages.contains(x) {
            let k = choose|k: int| 0 <= k < packages.len() && packages[k] == x;
            if k < packages.len() - 1 {
                assert(init[k] == x);
            }
        }
        if init.contains(x) {
            let k = choose|k: int| 0 <= k < init.len() && init[k] == x;
            assert(packages[k] == x);
        }
        if !installed.contains(packages.last()) {
            let full = rest.push(packages.last());
            if full.contains(x) {
                let k = choose|k: int| 0 <= k < full.len() && full[k] == x;
                if k < rest.len() {
                    assert(rest[k] == x);
                }
            }
            if rest.contains(x) {
                let k = choose|k: int| 0 <= k < rest.len() && rest[k] == x;
                assert(full[k] == x);
            }
            if x == packages.last() {
                assert(full[rest.len() as int] == x);
            }
        }
    }
}

/// The packages of `packages` that are not in `installed`, in order.
pub open spec fn missing(packages: Seq<Seq<char>>, installed: Seq<Seq<char>>) -> Seq<Seq<char>>
    decreases packages.len(),
{
    if packages.len() == 0 {
        seq![]
    } else {
        let rest = missing(packages.drop_last(), installed);
        if installed.contains(packages.last()) {
            rest
        } else {
            rest.push(packages.last())
        }
    }
}

/// Whether `name` is one of `names`.
pub fn contains_str(names: &Vec<String>, name: &str) -> (r: bool)
    ensures
        r == names.deep_view().contains(name@),
{
    let mut i: usize = 0;
    while i < names.len()
        invariant
            i <= names@.len(),
            forall|j: int| 0 <= j < i ==> names.deep_view()[j] != name@,
        decreases names@.len() - i,
    {
        if str_eq(names[i].as_str(), name) {
            assert(names.deep_view()[i as int] == name@);
            return true;
        }
        i = i + 1;
    }
    false
}

/// The packages a request names that are not among `installed`.
pub fn not_installed(package: &PackageVariant, installed: &Vec<String>) -> (r: Vec<String>)
    ensures
        r.deep_view() == missing(packages_of(package.deep_view()), installed.deep_view()),
{
    let packages = package.packages();
    let ghost all = packages.deep_view();
    let mut r: Vec<String> = Vec::new();
    let mut i: usize = 0;
    assert(all.take(0) =~= seq![]);
    while i < packages.len()
        invariant
            i <= packages@.len(),
            all == packages.deep_view(),
            r.deep_view() == missing(all.take(i as int), installed.deep_view()),
        decreases packages@.len() - i,
    {
        assert(all.take(i + 1).drop_last() =~= all.take(i as int));
        assert(all.take(i + 1).last() == all[i as int]);
        if !contains_str(installed, packages[i].as_str()) {
            let ghost prev = r.deep_view();
            r.push(packages[i].clone());
            assert(r.deep_view() =~= prev.push(all[i as int]));
        }
        i = i + 1;
    }
    assert(all.take(i as int) =~= all);
    r
}

/// One provider of each kind, so that a provider chosen at run time can
/// be planned with.
#[derive(Debug, PartialEq, Eq)]
pub enum Provider {
    Aptitude(Aptitude),
    BsdPkg(BsdPkg),
    Dnf(Dnf),
    Homebrew(Homebrew),
    Macports(Macports),
    Yay(Yay),
    Paru(Paru),
    Winget(Winget),
    Xbps(Xbps),
    Zypper(Zypper),
}

/// The provider that plans for `kind`.
pub open spec fn provider_for(kind: PackageProviders) -> Provider {
    match kind {
        PackageProviders::Aptitude => Provider::Aptitude(Aptitude {}),
        PackageProviders::BsdPkg => Provider::BsdPkg(BsdPkg {}),
        PackageProviders::Dnf => Provider::Dnf(Dnf {}),
        PackageProviders::Homebrew => Provider::Homebrew(Homebrew {}),
        PackageProviders::Macports => Provider::Macports(Macports {}),
        PackageProviders::Yay => Provider::Yay(Yay {}),
        PackageProviders::Paru => Provider::Paru(Paru {}),
        PackageProviders::Winget => Provider::Winget(Winget {}),
        PackageProviders::Xbps => Provider::Xbps(Xbps {}),
        PackageProviders::Zypper => Provider::Zypper(Zypper {}),
    }
}

impl PackageProviders {
    /// The provider that plans for this kind of package manager.
    pub fn get_provider(self) -> (p: Provider)
        ensures
            p == provider_for(self),
    {
        match self {
            PackageProviders::Aptitude => Provider::Aptitude(Aptitude {}),
            PackageProviders::BsdPkg => Provider::BsdPkg(BsdPkg {}),
            PackageProviders::Dnf => Provider::Dnf(Dnf {}),
            PackageProviders::Homebrew => Provider::Homebrew(Homebrew {}),
            PackageProviders::Macports => Provider::Macports(Macports {}),
            PackageProviders::Yay => Provider::Yay(Yay {}),
            PackageProviders::Paru => Provider::Paru(Paru {}),
            PackageProviders::Winget => Provider::Winget(Winget {}),
            PackageProviders::Xbps => Provider::Xbps(Xbps {}),
            PackageProviders::Zypper => Provider::Zypper(Zypper {}),
        }
    }
}

impl PackageProvider for Provider {
    open spec fn spec_name(&self) -> Seq<char> {
        match self {
            Provider::Aptitude(p) => p.spec_name(),
            Provider::BsdPkg(p) => p.spec_name(),
            Provider::Dnf(p) => p.spec_name(),
            Provider::Homebrew(p) => p.spec_name(),
            Provider::Macports(p) => p.spec_name(),
            Provider::Yay(p) => p.spec_name(),
            Provider::Paru(p) => p.spec_name(),
            Provider::Winget(p) => p.spec_name(),
            Provider::Xbps(p) => p.spec_name(),
            Provider::Zypper(p) => p.spec_name(),
        }
    }

    open spec fn spec_bootstrap(&self, privilege: Seq<char>) -> Seq<StepModel> {
        match self {
            Provider::Aptitude(p) => p.spec_bootstrap(privilege),
            Provider::BsdPkg(p) => p.spec_bootstrap(privilege),
            Provider::Dnf(p) => p.spec_bootstrap(privilege),
            Provider::Homebrew(p) => p.spec_bootstrap(privilege),
            Provider::Macports(p) => p.spec_bootstrap(privilege),
            Provider::Yay(p) => p.spec_bootstrap(privilege),
            Provider::Paru(p) => p.spec_bootstrap(privilege),
            Provider::Winget(p) => p.spec_bootstrap(privilege),
            Provider::Xbps(p) => p.spec_bootstrap(privilege),
            Provider::Zypper(p) => p.spec_bootstrap(privilege),
        }
    }

    open spec fn spec_has_repository(&self, repository: PackageRepositoryModel) -> bool {
        match self {
            Provider::Aptitude(p) => p.spec_has_repository(repository),
            Provider::BsdPkg(p) => p.spec_has_repository(repository),
            Provider::Dnf(p) => p.spec_has_repository(repository),
            Provider::Homebrew(p) => p.spec_has_repository(repository),
            Provider::Macports(p) => p.spec_has_repository(repository),
            Provider::Yay(p) => p.spec_has_repository(repository),
            Provider::Paru(p) => p.spec_has_repository(repository),
            Provider::Winget(p) => p.spec_has_repository(repository),
            Provider::Xbps(p) => p.spec_has_repository(repository),
            Provider::Zypper(p) => p.spec_has_repository(repository),
        }
    }

    open spec fn spec_add_repository(&self, repository: PackageRepositoryModel, privilege: Seq<char>) -> Seq<StepModel> {
        match self {
            Provider::Aptitude(p) => p.spec_add_repository(repository, privilege),
            Provider::BsdPkg(p) => p.spec_add_repository(repository, privilege),
            Provider::Dnf(p) => p.spec_add_repository(repository, privilege),
            Provider::Homebrew(p) => p.spec_add_repository(repository, privilege),
            Provider::Macports(p) => p.spec_add_repository(repository, privilege),
            Provider::Yay(p) => p.spec_add_repository(repository, privilege),
            Provider::Paru(p) => p.spec_add_repository(repository, privilege),
            Provider::Winget(p) => p.spec_add_repository(repository, privilege),
            Provider::Xbps(p) => p.spec_add_repository(repository, privilege),
            Provider::Zypper(p) => p.spec_add_repository(repository, privilege),
        }
    }

    open spec fn spec_query(&self, package: PackageVariantModel, installed: Seq<Seq<char>>) -> Seq<Seq<char>> {
        match self {
            Provider::Aptitude(p) => p.spec_query(package, installed),
            Provider::BsdPkg(p) => p.spec_query(package, installed),
            Provider::Dnf(p) => p.spec_query(package, installed),
            Provider::Homebrew(p) => p.spec_query(package, installed),
            Provider::Macports(p) => p.spec_query(package, installed),
            Provider::Yay(p) => p.spec_query(package, installed),
            Provider::Paru(p) => p.spec_query(package, installed),
            Provider::Winget(p) => p.spec_query(package, installed),
            Provider::Xbps(p) => p.spec_query(package, installed),
            Provider::Zypper(p) => p.spec_query(package, installed),
        }
    }

    open spec fn install_outcome(
        &self,
        package: PackageVariantModel,
        installed: Seq<Seq<char>>,
        privilege: Seq<char>,
        steps: Seq<StepModel>,
    ) -> bool {
        match self {
            Provider::Aptitude(p) => p.install_outcome(package, installed, privilege, steps),
            Provider::BsdPkg(p) => p.install_outcome(package, installed, privilege, steps),
            Provider::Dnf(p) => p.install_outcome(package, installed, privilege, steps),
            Provider::Homebrew(p) => p.install_outcome(package, installed, privilege, steps),
            Provider::Macports(p) => p.install_outcome(package, installed, privilege, steps),
            Provider::Yay(p) => p.install_outcome(package, installed, privilege, steps),
            Provider::Paru(p) => p.install_outcome(package, installed, privilege, steps),
            Provider::Winget(p) => p.install_outcome(package, installed, privilege, steps),
            Provider::Xbps(p) => p.install_outcome(package, installed, privilege, steps),
            Provider::Zypper(p) => p.install_outcome(package, installed, privilege, steps),
        }
    }

    fn name(&self) -> (r: &'static str) {
        match self {
            Provider::Aptitude(p) => p.name(),
            Provider::BsdPkg(p) => p.name(),
            Provider::Dnf(p) => p.name(),
            Provider::Homebrew(p) => p.name(),
            Provider::Macports(p) => p.name(),
            Provider::Yay(p) => p.name(),
            Provider::Paru(p) => p.name(),
            Provider::Winget(p) => p.name(),
            Provider::Xbps(p) => p.name(),
            Provider::Zypper(p) => p.name(),
        }
    }

    fn available(&self) -> bool {
        match self {
            Provider::Aptitude(p) => p.available(),
            Provider::BsdPkg(p) => p.available(),
            Provider::Dnf(p) => p.available(),
            Provider::Homebrew(p) => p.available(),
            Provider::Macports(p) => p.available(),
            Provider::Yay(p) => p.available(),
            Provider::Paru(p) => p.available(),
            Provider::Winget(p) => p.available(),
            Provider::Xbps(p) => p.available(),
            Provider::Zypper(p) => p.available(),
        }
    }

    fn bootstrap(&self, contexts: &Contexts) -> (r: Vec<Step>) {
        match self {
            Provider::Aptitude(p) => p.bootstrap(contexts),
            Provider::BsdPkg(p) => p.bootstrap(contexts),
            Provider::Dnf(p) => p.bootstrap(contexts),
            Provider::Homebrew(p) => p.bootstrap(contexts),
            Provider::Macports(p) => p.bootstrap(contexts),
            Provider::Yay(p) => p.bootstrap(contexts),
            Provider::Paru(p) => p.bootstrap(contexts),
            Provider::Winget(p) => p.bootstrap(contexts),
            Provider::Xbps(p) => p.bootstrap(contexts),
            Provider::Zypper(p) => p.bootstrap(contexts),
        }
    }

    fn has_repository(&self, repository: &PackageRepository) -> (r: bool) {
        match self {
            Provider::Aptitude(p) => p.has_repository(repository),
            Provider::BsdPkg(p) => p.has_repository(repository),
            Provider::Dnf(p) => p.has_repository(repository),
            Provider::Homebrew(p) => p.has_repository(repository),
            Provider::Macports(p) => p.has_repository(repository),
            Provider::Yay(p) => p.has_repository(repository),
            Provider::Paru(p) => p.has_repository(repository),
            Provider::Winget(p) => p.has_repository(repository),
            Provider::Xbps(p) => p.has_repository(repository),
            Provider::Zypper(p) => p.has_repository(repository),
        }
    }

    fn add_repository(&self, repository: &PackageRepository, contexts: &Contexts) -> (r: Result<Vec<Step>, PlanError>) {
        match self {
            Provider::Aptitude(p) => p.add_repository(repository, contexts),
            Provider::BsdPkg(p) => p.add_repository(repository, contexts),
            Provider::Dnf(p) => p.add_repository(repository, contexts),
            Provider::Homebrew(p) => p.add_repository(repository, contexts),
            Provider::Macports(p) => p.add_repository(repository, contexts),
            Provider::Yay(p) => p.add_repository(repository, contexts),
            Provider::Paru(p) => p.add_repository(repository, contexts),
            Provider::Winget(p) => p.add_repository(repository, contexts),
            Provider::Xbps(p) => p.add_repository(repository, contexts),
            Provider::Zypper(p) => p.add_repository(repository, contexts),
        }
    }

    fn query(&self, package: &PackageVariant, installed: &Vec<String>) -> (r: Result<Vec<String>, PlanError>) {
        match self {
            Provider::Aptitude(p) => p.query(package, installed),
            Provider::BsdPkg(p) => p.query(package, installed),
            Provider::Dnf(p) => p.query(package, installed),
            Provider::Homebrew(p) => p.query(package, installed),
            Provider::Macports(p) => p.query(package, installed),
            Provider::Yay(p) => p.query(package, installed),
            Provider::Paru(p) => p.query(package, installed),
            Provider::Winget(p) => p.query(package, installed),
            Provider::Xbps(p) => p.query(package, installed),
            Provider::Zypper(p) => p.query(package, installed),
        }
    }

    fn install(&self, package: &PackageVariant, installed: &Vec<String>, contexts: &Contexts) -> (r: Result<Vec<Step>, PlanError>) {
        match self {
            Provider::Aptitude(p) => p.install(package, installed, contexts),
            Provider::BsdPkg(p) => p.install(package, installed, contexts),
            Provider::Dnf(p) => p.install(package, installed, contexts),
            Provider::Homebrew(p) => p.install(package, installed, contexts),
            Provider::Macports(p) => p.install(package, installed, contexts),
            Provider::Yay(p) => p.install(package, installed, contexts),
            Provider::Paru(p) => p.install(package, installed, contexts),
            Provider::Winget(p) => p.install(package, installed, contexts),
            Provider::Xbps(p) => p.install(package, installed, contexts),
            Provider::Zypper(p) => p.install(package, installed, contexts),
        }
    }
}

} // verus!
