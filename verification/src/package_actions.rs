use vstd::prelude::*;

use crate::contexts::Contexts;
use crate::error::{PlanError, PlanErrorModel};
use crate::host::current_os_type;
use crate::package::{
    variant_for, Package, PackageProviders, PackageRepository, PackageRepositoryModel,
    PackageVariant, PackageVariantModel,
};
use crate::providers::{provider_for, PackageProvider, Provider};
use crate::steps::{Step, StepModel};

verus! {

/// Bootstrapping is needed exactly when the provider is not available.
pub open spec fn bootstrap_prefix(provider: Provider, available: bool, privilege: Seq<char>) -> Seq<
    StepModel,
> {
    if available {
        seq![]
    } else {
        provider.spec_bootstrap(privilege)
    }
}

/// The error, if any, that installing `v` ends in: an unavailable provider
/// that cannot be bootstrapped; or, for an unavailable provider other than
/// `pkg` and `apt`, a request to install from local files.
pub open spec fn install_error(v: PackageVariantModel, available: bool, privilege: Seq<char>) -> Option<
    PlanErrorModel,
> {
    let provider = provider_for(v.provider);
    if !available && provider.spec_bootstrap(privilege).len() == 0 {
        Some(PlanErrorModel::ProviderUnavailable { provider: provider.spec_name() })
    } else if !available && v.file && !(v.provider == PackageProviders::BsdPkg || v.provider
        == PackageProviders::Aptitude) {
        Some(PlanErrorModel::LocalFileUnsupported { provider: provider.spec_name() })
    } else {
        None
    }
}

/// A successful installation plan: the bootstrap steps when the provider is
/// not available, followed by an installation the provider plans.
pub open spec fn install_steps_ok(
    v: PackageVariantModel,
    available: bool,
    installed: Seq<Seq<char>>,
    privilege: Seq<char>,
    steps: Seq<StepModel>,
) -> bool {
    let provider = provider_for(v.provider);
    let prefix = bootstrap_prefix(provider, available, privilege);
    &&& prefix.len() <= steps.len()
    &&& steps.subrange(0, prefix.len() as int) == prefix
    &&& provider.install_outcome(
        v,
        installed,
        privilege,
        steps.subrange(prefix.len() as int, steps.len() as int),
    )
}

/// What planning an installation of `v` returns.
pub open spec fn install_result(
    v: PackageVariantModel,
    available: bool,
    installed: Seq<Seq<char>>,
    privilege: Seq<char>,
    r: Result<Seq<StepModel>, PlanErrorModel>,
) -> bool {
    match r {
        Ok(steps) => install_error(v, available, privilege) is None && install_steps_ok(
            v,
            available,
            installed,
            privilege,
            steps,
        ),
        Err(e) => install_error(v, available, privilege) == Some(e),
    }
}

/// The model of a planning result.
pub open spec fn result_model(r: Result<Vec<Step>, PlanError>) -> Result<
    Seq<StepModel>,
    PlanErrorModel,
> {
    match r {
        Ok(s) => Ok(s.deep_view()),
        Err(e) => Err(e.deep_view()),
    }
}

fn append_steps(a: &mut Vec<Step>, b: Vec<Step>)
    ensures
        final(a).deep_view() == old(a).deep_view() + b.deep_view(),
{
    let mut b = b;
    let ghost start = a.deep_view();
    let ghost bv = b.deep_view();
    a.append(&mut b);
    assert(a.deep_view() =~= start + bv);
}

impl PackageVariant {
    /// The request that `package` makes on the running operating system.
    pub fn from_package(package: &Package) -> (v: PackageVariant)
        ensures
            exists|os: Seq<char>| v.deep_view() == variant_for(package.deep_view(), os),
    {
        let os = current_os_type();
        package.variant_for_os(os.as_str())
    }

    /// Plans installing this request, given whether its provider is
    /// available and which packages a probe found installed.
    pub fn plan_install(&self, available: bool, installed: &Vec<String>, contexts: &Contexts) -> (r:
        Result<Vec<Step>, PlanError>)
        ensures
            install_result(
                self.deep_view(),
                available,
                installed.deep_view(),
                contexts.privilege(),
                result_model(r),
            ),
    {
        let provider = self.provider.get_provider();
        let mut atoms: Vec<Step> = Vec::new();
        assert(atoms.deep_view() =~= seq![]);
        if !available {
            let bootstrap = provider.bootstrap(contexts);
            if bootstrap.len() == 0 {
                return Err(PlanError::ProviderUnavailable { provider: provider.name().to_owned() });
            }
            if self.file {
                match self.provider {
                    PackageProviders::BsdPkg => {},
                    PackageProviders::Aptitude => {},
                    _ => {
                        return Err(
                            PlanError::LocalFileUnsupported { provider: provider.name().to_owned() },
                        );
                    },
                }
            }
            append_steps(&mut atoms, bootstrap);
        }
        let ghost prefix = atoms.deep_view();
        match provider.install(self, installed, contexts) {
            Ok(steps) => {
                let ghost sv = steps.deep_view();
                append_steps(&mut atoms, steps);
                assert(atoms.deep_view().subrange(0, prefix.len() as int) =~= prefix);
                assert(atoms.deep_view().subrange(prefix.len() as int, atoms.deep_view().len() as int) =~= sv);
                Ok(atoms)
            },
            Err(e) => Err(e),
        }
    }
}

impl Package {
    /// Plans installing the packages on this host: the variant for the
    /// running operating system, planned with the provider's availability
    /// on this host.
    pub fn plan(&self, installed: &Vec<String>, contexts: &Contexts) -> (r: Result<
        Vec<Step>,
        PlanError,
    >)
        ensures
            exists|os: Seq<char>, available: bool|
                #[trigger] install_result(
                    variant_for(self.deep_view(), os),
                    available,
                    installed.deep_view(),
                    contexts.privilege(),
                    result_model(r),
                ),
    {
        let variant = PackageVariant::from_package(self);
        let provider = variant.provider.get_provider();
        let available = provider.available();
        variant.plan_install(available, installed, contexts)
    }

    /// The one-line description of this action.
    pub fn summarize(&self) -> (r: String)
        ensures
            r@ == "Installing packages"@,
    {
        String::from_str("Installing packages")
    }
}

/// The error, if any, that adding a repository ends in: an unavailable
/// provider that cannot be bootstrapped.
pub open spec fn repository_error(
    repository: PackageRepositoryModel,
    available: bool,
    privilege: Seq<char>,
) -> Option<PlanErrorModel> {
    let provider = provider_for(repository.provider);
    if !available && provider.spec_bootstrap(privilege).len() == 0 {
        Some(PlanErrorModel::ProviderUnavailable { provider: provider.spec_name() })
    } else {
        None
    }
}

/// The steps that add a repository: the bootstrap steps when the provider is
/// not available, then the provider's steps that add it, unless the provider
/// has it already.
pub open spec fn repository_steps(
    repository: PackageRepositoryModel,
    available: bool,
    privilege: Seq<char>,
) -> Seq<StepModel> {
    let provider = provider_for(repository.provider);
    bootstrap_prefix(provider, available, privilege) + if provider.spec_has_repository(
        repository,
    ) {
        seq![]
    } else {
        provider.spec_add_repository(repository, privilege)
    }
}

/// What planning the addition of a repository returns.
pub open spec fn repository_result(
    repository: PackageRepositoryModel,
    available: bool,
    privilege: Seq<char>,
    r: Result<Seq<StepModel>, PlanErrorModel>,
) -> bool {
    match repository_error(repository, available, privilege) {
        Some(e) => r == Err::<Seq<StepModel>, PlanErrorModel>(e),
        None => r == Ok::<Seq<StepModel>, PlanErrorModel>(
            repository_steps(repository, available, privilege),
        ),
    }
}

impl PackageRepository {
    /// Plans adding this repository, given whether its provider is available.
    pub fn plan_with_availability(&self, available: bool, contexts: &Contexts) -> (r: Result<
        Vec<Step>,
        PlanError,
    >)
        ensures
            repository_result(self.deep_view(), available, contexts.privilege(), result_model(r)),
    {
        let provider = self.provider.get_provider();
        let mut atoms: Vec<Step> = Vec::new();
        assert(atoms.deep_view() =~= seq![]);
        if !available {
            let bootstrap = provider.bootstrap(contexts);
            if bootstrap.len() == 0 {
                return Err(PlanError::ProviderUnavailable { provider: provider.name().to_owned() });
            }
            append_steps(&mut atoms, bootstrap);
        }
        let ghost prefix = atoms.deep_view();
        if !provider.has_repository(self) {
            match provider.add_repository(self, contexts) {
                Ok(steps) => append_steps(&mut atoms, steps),
                Err(e) => return Err(e),
            }
        } else {
            assert(atoms.deep_view() =~= prefix + seq![]);
        }
        Ok(atoms)
    }

    /// Plans adding this repository on this host.
    pub fn plan(&self, contexts: &Contexts) -> (r: Result<Vec<Step>, PlanError>)
        ensures
            exists|available: bool|
                #[trigger] repository_result(self.deep_view(), available, contexts.privilege(), result_model(r)),
    {
        let provider = self.provider.get_provider();
        let available = provider.available();
        self.plan_with_availability(available, contexts)
    }

    /// The one-line description of this action.
    pub fn summarize(&self) -> (r: String)
        ensures
            r@ == "Adding repository "@ + self.name@,
    {
        String::from_str("Adding repository ").concat(self.name.as_str())
    }
}

} // verus!
