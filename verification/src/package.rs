use vstd::prelude::*;

use crate::text::{clone_opt, clone_strings, str_eq};

verus! {

/// The package managers that can install packages.
#[derive(Clone, Copy, Debug, PartialEq, Eq, Structural)]
pub enum PackageProviders {
    Aptitude,
    BsdPkg,
    Dnf,
    Homebrew,
    Macports,
    Yay,
    Paru,
    Winget,
    Xbps,
    Zypper,
}

/// The package provider that is the default on an operating system,
/// named as the operating-system detector names it; `None` where there is
/// no default.
pub open spec fn default_provider_for(os: Seq<char>) -> Option<PackageProviders> {
    if os == "Arch"@ || os == "Artix"@ || os == "CachyOS"@ || os == "EndeavourOS"@
        || os == "Manjaro"@ {
        Some(PackageProviders::Yay)
    } else if os == "DragonFly"@ || os == "FreeBSD"@ {
        Some(PackageProviders::BsdPkg)
    } else if os == "Debian"@ || os == "Mint"@ || os == "Pop"@ || os == "Ubuntu"@
        || os == "OracleLinux"@ {
        Some(PackageProviders::Aptitude)
    } else if os == "openSUSE"@ || os == "SUSE"@ {
        Some(PackageProviders::Zypper)
    } else if os == "Fedora"@ || os == "Redhat"@ || os == "RedHatEnterprise"@
        || os == "CentOS"@ {
        Some(PackageProviders::Dnf)
    } else if os == "Macos"@ {
        Some(PackageProviders::Homebrew)
    } else if os == "Windows"@ {
        Some(PackageProviders::Winget)
    } else {
        None
    }
}

fn is_any(os: &str, names: &[&str]) -> (r: bool)
    ensures
        r == exists|i: int| 0 <= i < names@.len() && os@ == names@[i]@,
{
    let mut i: usize = 0;
    while i < names.len()
        invariant
            i <= names@.len(),
            forall|j: int| 0 <= j < i ==> os@ != names@[j]@,
        decreases names@.len() - i,
    {
        if str_eq(os, names[i]) {
            return true;
        }
        i = i + 1;
    }
    false
}

impl PackageProviders {
    /// The default package provider of the operating system `os`.
    pub fn for_os(os: &str) -> (r: Option<PackageProviders>)
        ensures
            r == default_provider_for(os@),
    {
        let yay = ["Arch", "Artix", "CachyOS", "EndeavourOS", "Manjaro"];
        let bsd = ["DragonFly", "FreeBSD"];
        let apt = ["Debian", "Mint", "Pop", "Ubuntu", "OracleLinux"];
        let suse = ["openSUSE", "SUSE"];
        let dnf = ["Fedora", "Redhat", "RedHatEnterprise", "CentOS"];
        let mac = ["Macos"];
        let win = ["Windows"];
        assert(yay@ =~= seq!["Arch", "Artix", "CachyOS", "EndeavourOS", "Manjaro"]);
        assert(bsd@ =~= seq!["DragonFly", "FreeBSD"]);
        assert(apt@ =~= seq!["Debian", "Mint", "Pop", "Ubuntu", "OracleLinux"]);
        assert(suse@ =~= seq!["openSUSE", "SUSE"]);
        assert(dnf@ =~= seq!["Fedora", "Redhat", "RedHatEnterprise", "CentOS"]);
        assert(mac@ =~= seq!["Macos"]);
        assert(win@ =~= seq!["Windows"]);
        if is_any(os, &yay) {
            Some(PackageProviders::Yay)
        } else if is_any(os, &bsd) {
            Some(PackageProviders::BsdPkg)
        } else if is_any(os, &apt) {
            Some(PackageProviders::Aptitude)
        } else if is_any(os, &suse) {
            Some(PackageProviders::Zypper)
        } else if is_any(os, &dnf) {
            Some(PackageProviders::Dnf)
        } else if is_any(os, &mac) {
            Some(PackageProviders::Homebrew)
        } else if is_any(os, &win) {
            Some(PackageProviders::Winget)
        } else {
            None
        }
    }
}

/// The package request after the variant for the current operating system
/// has been applied.
#[derive(Debug, PartialEq, Eq)]
pub struct PackageVariant {
    pub name: Option<String>,
    pub list: Vec<String>,
    pub provider: PackageProviders,
    pub extra_args: Vec<String>,
    pub file: bool,
}

pub struct PackageVariantModel {
    pub name: Option<Seq<char>>,
    pub list: Seq<Seq<char>>,
    pub provider: PackageProviders,
    pub extra_args: Seq<Seq<char>>,
    pub file: bool,
}

impl DeepView for PackageVariant {
    type V = PackageVariantModel;

    open spec fn deep_view(&self) -> PackageVariantModel {
        PackageVariantModel {
            name: self.name.deep_view(),
            list: self.list.deep_view(),
            provider: self.provider,
            extra_args: self.extra_args.deep_view(),
            file: self.file,
        }
    }
}

/// The packages a request names: its single name when it has one, else its list.
pub open spec fn packages_of(v: PackageVariantModel) -> Seq<Seq<char>> {
    match v.name {
        Some(n) => seq![n],
        None => v.list,
    }
}

impl PackageVariant {
    /// The packages this request names: the single name when given, else the list.
    pub fn packages(&self) -> (r: Vec<String>)
        ensures
            r.deep_view() == packages_of(self.deep_view()),
    {
        match &self.name {
            Some(n) => {
                let r = vec![n.clone()];
                assert(r.deep_view() =~= seq![n@]);
                r
            },
            None => clone_strings(&self.list),
        }
    }
}

/// A package action as written in a manifest, with its per-OS variants
/// keyed by operating-system name.
#[derive(Debug, PartialEq, Eq)]
pub struct Package {
    pub name: Option<String>,
    pub list: Vec<String>,
    pub provider: PackageProviders,
    pub repository: Option<String>,
    pub key: Option<String>,
    pub extra_args: Vec<String>,
    pub variants: Vec<(String, PackageVariant)>,
    pub file: bool,
}

/// Installing packages is the package action itself.
pub type PackageInstall = Package;

pub struct PackageModel {
    pub name: Option<Seq<char>>,
    pub list: Seq<Seq<char>>,
    pub provider: PackageProviders,
    pub repository: Option<Seq<char>>,
    pub key: Option<Seq<char>>,
    pub extra_args: Seq<Seq<char>>,
    pub variants: Seq<(Seq<char>, PackageVariantModel)>,
    pub file: bool,
}

impl DeepView for Package {
    type V = PackageModel;

    open spec fn deep_view(&self) -> PackageModel {
        PackageModel {
            name: self.name.deep_view(),
            list: self.list.deep_view(),
            provider: self.provider,
            repository: self.repository.deep_view(),
            key: self.key.deep_view(),
            extra_args: self.extra_args.deep_view(),
            variants: self.variants.deep_view(),
            file: self.file,
        }
    }
}

/// The first entry of `entries` keyed by `key`.
pub open spec fn lookup<V>(entries: Seq<(Seq<char>, V)>, key: Seq<char>) -> Option<V>
    decreases entries.len(),
{
    if entries.len() == 0 {
        None
    } else if entries[0].0 == key {
        Some(entries[0].1)
    } else {
        lookup(entries.drop_first(), key)
    }
}

/// The request that a package action makes on operating system `os`: the
/// action itself when no variant is keyed by `os`; else the variant's
/// provider and extra arguments, its name and list where it sets them, and
/// the action's own for the rest.
pub open spec fn variant_for(p: PackageModel, os: Seq<char>) -> PackageVariantModel {
    match lookup(p.variants, os) {
        None => PackageVariantModel {
            name: p.name,
            list: p.list,
            provider: p.provider,
            extra_args: p.extra_args,
            file: p.file,
        },
        Some(v) => PackageVariantModel {
            name: if v.name is Some { v.name } else { p.name },
            list: if v.list.len() > 0 { v.list } else { p.list },
            provider: v.provider,
            extra_args: v.extra_args,
            file: p.file,
        },
    }
}

impl Package {
    /// The index of the first variant keyed by `os`.
    fn variant_index(&self, os: &str) -> (r: Option<usize>)
        ensures
            match r {
                Some(i) => i < self.variants@.len() && lookup(self.variants.deep_view(), os@)
                    == Some(self.variants@[i as int].1.deep_view()),
                None => lookup(self.variants.deep_view(), os@) is None,
            },
    {
        let ghost all = self.variants.deep_view();
        let mut i: usize = 0;
        assert(all.subrange(0, all.len() as int) =~= all);
        while i < self.variants.len()
            invariant
                i <= self.variants@.len(),
                all == self.variants.deep_view(),
                lookup(all, os@) == lookup(all.subrange(i as int, all.len() as int), os@),
            decreases self.variants@.len() - i,
        {
            let ghost rest = all.subrange(i as int, all.len() as int);
            assert(rest[0] == all[i as int]);
            if str_eq(self.variants[i].0.as_str(), os) {
                return Some(i);
            }
            assert(rest.drop_first() =~= all.subrange(i + 1, all.len() as int));
            i = i + 1;
        }
        assert(all.subrange(i as int, all.len() as int).len() == 0);
        None
    }

    /// The request this action makes on operating system `os`.
    pub fn variant_for_os(&self, os: &str) -> (v: PackageVariant)
        ensures
            v.deep_view() == variant_for(self.deep_view(), os@),
    {
        match self.variant_index(os) {
            None => PackageVariant {
                name: clone_opt(&self.name),
                list: clone_strings(&self.list),
                provider: self.provider,
                extra_args: clone_strings(&self.extra_args),
                file: self.file,
            },
            Some(i) => {
                let variant = &self.variants[i].1;
                let name = if variant.name.is_some() {
                    clone_opt(&variant.name)
                } else {
                    clone_opt(&self.name)
                };
                let list = if variant.list.len() > 0 {
                    clone_strings(&variant.list)
                } else {
                    clone_strings(&self.list)
                };
                PackageVariant {
                    name,
                    list,
                    provider: variant.provider,
                    extra_args: clone_strings(&variant.extra_args),
                    file: self.file,
                }
            },
        }
    }
}

/// The signing key of a package repository.
#[derive(Debug, PartialEq, Eq)]
pub struct RepositoryKey {
    pub url: String,
    pub name: Option<String>,
    pub key: Option<String>,
    pub fingerprint: Option<String>,
}

pub struct RepositoryKeyModel {
    pub url: Seq<char>,
    pub name: Option<Seq<char>>,
    pub key: Option<Seq<char>>,
    pub fingerprint: Option<Seq<char>>,
}

impl DeepView for RepositoryKey {
    type V = RepositoryKeyModel;

    open spec fn deep_view(&self) -> RepositoryKeyModel {
        RepositoryKeyModel {
            url: self.url@,
            name: self.name.deep_view(),
            key: self.key.deep_view(),
            fingerprint: self.fingerprint.deep_view(),
        }
    }
}

/// A package repository to add, with its optional signing key.
#[derive(Debug, PartialEq, Eq)]
pub struct PackageRepository {
    pub name: String,
    pub key: Option<RepositoryKey>,
    pub provider: PackageProviders,
}

pub struct PackageRepositoryModel {
    pub name: Seq<char>,
    pub key: Option<RepositoryKeyModel>,
    pub provider: PackageProviders,
}

impl DeepView for PackageRepository {
    type V = PackageRepositoryModel;

    open spec fn deep_view(&self) -> PackageRepositoryModel {
        PackageRepositoryModel {
            name: self.name@,
            key: self.key.deep_view(),
            provider: self.provider,
        }
    }
}

/// A package with no variant for the operating system is asked for as it
/// is written.
pub proof fn lemma_no_variant_keeps_package(p: PackageModel, os: Seq<char>)
    requires
        lookup(p.variants, os) is None,
    ensures
        variant_for(p, os) == (PackageVariantModel {
            name: p.name,
            list: p.list,
            provider: p.provider,
            extra_args: p.extra_args,
            file: p.file,
        }),
{
}

} // verus!
