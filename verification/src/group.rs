use vstd::prelude::*;

use crate::contexts::Contexts;
use crate::host::locate_executable;
use crate::package::lookup;
use crate::steps::{exec_step, exec_step_model, privileged_step, privileged_step_model, AtomModel, Step, StepModel};
use crate::text::{no_pairs, owned_strings, str_eq};

verus! {

/// The programs that can create groups.
#[derive(Clone, Copy, Debug, PartialEq, Eq, Structural)]
pub enum GroupProviders {
    NoProvider,
    FreeBSD,
    Linux,
    MacOs,
}

/// The default group provider: `Linux` on a Linux build, else chosen by the
/// operating-system type (`FreeBSD`, `Macos`), else `NoProvider`.
pub open spec fn default_group_provider(target_os: Seq<char>, os_type: Seq<char>) -> GroupProviders {
    if target_os == "linux"@ {
        GroupProviders::Linux
    } else if os_type == "FreeBSD"@ {
        GroupProviders::FreeBSD
    } else if os_type == "Macos"@ {
        GroupProviders::MacOs
    } else {
        GroupProviders::NoProvider
    }
}

impl GroupProviders {
    /// The default provider for a build for `target_os` running on an
    /// operating system of type `os_type`.
    pub fn for_host(target_os: &str, os_type: &str) -> (r: GroupProviders)
        ensures
            r == default_group_provider(target_os@, os_type@),
    {
        if str_eq(target_os, "linux") {
            GroupProviders::Linux
        } else if str_eq(os_type, "FreeBSD") {
            GroupProviders::FreeBSD
        } else if str_eq(os_type, "Macos") {
            GroupProviders::MacOs
        } else {
            GroupProviders::NoProvider
        }
    }

    /// The provider that plans for this kind.
    pub fn get_provider(self) -> (p: GroupProviderImpl)
        ensures
            p == group_provider_for(self),
    {
        match self {
            GroupProviders::NoProvider => GroupProviderImpl::NoProvider(NoneGroupProvider {}),
            GroupProviders::FreeBSD => GroupProviderImpl::FreeBSD(FreeBSDGroupProvider {}),
            GroupProviders::Linux => GroupProviderImpl::Linux(LinuxGroupProvider {}),
            GroupProviders::MacOs => GroupProviderImpl::MacOs(MacOsGroupProvider {}),
        }
    }
}

/// A group to create, after the variant for the current operating system
/// has been applied.
#[derive(Debug, PartialEq, Eq)]
pub struct GroupVariant {
    pub provider: GroupProviders,
    pub group_name: String,
}

pub struct GroupVariantModel {
    pub provider: GroupProviders,
    pub group_name: Seq<char>,
}

impl DeepView for GroupVariant {
    type V = GroupVariantModel;

    open spec fn deep_view(&self) -> GroupVariantModel {
        GroupVariantModel { provider: self.provider, group_name: self.group_name@ }
    }
}

/// A group action as written in a manifest, with its per-OS variants.
#[derive(Debug, PartialEq, Eq)]
pub struct Group {
    pub provider: GroupProviders,
    pub group_name: String,
    pub variants: Vec<(String, GroupVariant)>,
}

pub struct GroupModel {
    pub provider: GroupProviders,
    pub group_name: Seq<char>,
    pub variants: Seq<(Seq<char>, GroupVariantModel)>,
}

impl DeepView for Group {
    type V = GroupModel;

    open spec fn deep_view(&self) -> GroupModel {
        GroupModel {
            provider: self.provider,
            group_name: self.group_name@,
            variants: self.variants.deep_view(),
        }
    }
}

/// The group a group action creates on operating system `os`: the variant
/// keyed by `os` sets only the provider; the name is the action's.
pub open spec fn group_variant_for(g: GroupModel, os: Seq<char>) -> GroupVariantModel {
    match lookup(g.variants, os) {
        None => GroupVariantModel { provider: g.provider, group_name: g.group_name },
        Some(v) => GroupVariantModel { provider: v.provider, group_name: g.group_name },
    }
}

impl Group {
    /// The group this action creates on operating system `os`.
    pub fn variant_for_os(&self, os: &str) -> (v: GroupVariant)
        ensures
            v.deep_view() == group_variant_for(self.deep_view(), os@),
    {
        let ghost all = self.variants.deep_view();
        let mut i: usize = 0;
        assert(all.subrange(0, all.len() as int) =~= all);
        while i < self.variants.len()
            invariant
                i <= self.variants@.len(),
                all == self.variants.deep_view(),
                lookup(all, os@) == lookup(all.subrange(i as int, all.len() as int), os@),
            decreases self.variants@.len() - i,
        {
            let ghost rest = all.subrange(i as int, all.len() as int);
            assert(rest[0] == all[i as int]);
            if str_eq(self.variants[i].0.as_str(), os) {
                return GroupVariant {
                    provider: self.variants[i].1.provider,
                    group_name: self.group_name.clone(),
                };
            }
            assert(rest.drop_first() =~= all.subrange(i + 1, all.len() as int));
            i = i + 1;
        }
        assert(all.subrange(i as int, all.len() as int).len() == 0);
        GroupVariant { provider: self.provider, group_name: self.group_name.clone() }
    }
}

/// What a group provider contributes to planning.
pub trait GroupProvider {
    /// Whether `steps` is a plan this provider may make for creating `group`.
    spec fn add_group_outcome(&self, group: GroupVariantModel, privilege: Seq<char>, steps: Seq<StepModel>) -> bool;

    fn add_group(&self, group: &GroupVariant, contexts: &Contexts) -> (r: Vec<Step>)
        ensures
            self.add_group_outcome(group.deep_view(), contexts.privilege(), r.deep_view()),
    ;
}

/// Creates groups with `pw groupadd` on FreeBSD.
#[derive(Debug, PartialEq, Eq)]
pub struct FreeBSDGroupProvider {}

/// Creates groups with `groupadd`.
#[derive(Debug, PartialEq, Eq)]
pub struct LinuxGroupProvider {}

/// Creates groups with `dscl`.
#[derive(Debug, PartialEq, Eq)]
pub struct MacOsGroupProvider {}

/// Stands for a system where groups cannot be created.
#[derive(Debug, PartialEq, Eq)]
pub struct NoneGroupProvider {}

/// FreeBSD: nothing without a name, else one privileged `pw groupadd`.
pub open spec fn freebsd_add_group(group: GroupVariantModel, p: Seq<char>) -> Seq<StepModel> {
    if group.group_name.len() == 0 {
        seq![]
    } else {
        seq![privileged_step_model("/usr/bin/pw"@, seq!["groupadd"@, group.group_name], seq![], p)]
    }
}

/// Linux, with `groupadd` found at `cli`: nothing when it was not found or
/// the name is empty, else one privileged `groupadd <name>`.
pub open spec fn linux_add_group(group: GroupVariantModel, cli: Option<Seq<char>>) -> Seq<StepModel> {
    match cli {
        None => seq![],
        Some(c) => if group.group_name.len() == 0 {
            seq![]
        } else {
            seq![exec_step_model(c, seq![group.group_name], true, seq![], None)]
        },
    }
}

/// macOS, with `dscl` found at `cli`: nothing when it was not found or the
/// name is empty, else one privileged `dscl . create /Groups/<name>`.
pub open spec fn macos_add_group(group: GroupVariantModel, cli: Option<Seq<char>>) -> Seq<StepModel> {
    match cli {
        None => seq![],
        Some(c) => if group.group_name.len() == 0 {
            seq![]
        } else {
            seq![exec_step_model(c, seq!["."@, "create"@, "/Groups/"@ + group.group_name], true, seq![], None)]
        },
    }
}

impl GroupProvider for FreeBSDGroupProvider {
    open spec fn add_group_outcome(&self, group: GroupVariantModel, p: Seq<char>, steps: Seq<StepModel>) -> bool {
        steps == freebsd_add_group(group, p)
    }

    fn add_group(&self, group: &GroupVariant, contexts: &Contexts) -> (r: Vec<Step>) {
        if group.group_name.unicode_len() == 0 {
            let r: Vec<Step> = Vec::new();
            assert(r.deep_view() =~= seq![]);
            return r;
        }
        let provider = contexts.privilege_provider_or_sudo();
        let args = vec![String::from_str("groupadd"), group.group_name.clone()];
        assert(args.deep_view() =~= seq!["groupadd"@, group.group_name@]);
        let r = vec![privileged_step("/usr/bin/pw", args, no_pairs(), provider)];
        assert(r.deep_view() =~= freebsd_add_group(group.deep_view(), contexts.privilege()));
        r
    }
}

impl LinuxGroupProvider {
    /// The plan when `groupadd` was found at `cli` (or not found).
    pub fn add_group_with_cli(group: &GroupVariant, cli: Option<String>) -> (r: Vec<Step>)
        ensures
            r.deep_view() == linux_add_group(group.deep_view(), cli.deep_view()),
    {
        match cli {
            Some(c) => {
                if group.group_name.unicode_len() == 0 {
                    let r: Vec<Step> = Vec::new();
                    assert(r.deep_view() =~= seq![]);
                    return r;
                }
                let args = vec![group.group_name.clone()];
                assert(args.deep_view() =~= seq![group.group_name@]);
                let r = vec![exec_step(c, args, true, String::new(), None)];
                assert(r.deep_view() =~= linux_add_group(group.deep_view(), Some(c@)));
                r
            },
            None => {
                let r: Vec<Step> = Vec::new();
                assert(r.deep_view() =~= seq![]);
                r
            },
        }
    }
}

impl GroupProvider for LinuxGroupProvider {
    open spec fn add_group_outcome(&self, group: GroupVariantModel, p: Seq<char>, steps: Seq<StepModel>) -> bool {
        exists|cli: Option<Seq<char>>| steps == #[trigger] linux_add_group(group, cli)
    }

    fn add_group(&self, group: &GroupVariant, contexts: &Contexts) -> (r: Vec<Step>) {
        let cli = locate_executable("groupadd");
        let r = LinuxGroupProvider::add_group_with_cli(group, cli);
        assert(linux_add_group(group.deep_view(), cli.deep_view()) == r.deep_view());
        r
    }
}

impl MacOsGroupProvider {
    /// The plan when `dscl` was found at `cli` (or not found).
    pub fn add_group_with_cli(group: &GroupVariant, cli: Option<String>) -> (r: Vec<Step>)
        ensures
            r.deep_view() == macos_add_group(group.deep_view(), cli.deep_view()),
    {
        match cli {
            Some(c) => {
                if group.group_name.unicode_len() == 0 {
                    let r: Vec<Step> = Vec::new();
                    assert(r.deep_view() =~= seq![]);
                    return r;
                }
                let record = String::from_str("/Groups/").concat(group.group_name.as_str());
                let args = vec![String::from_str("."), String::from_str("create"), record];
                assert(args.deep_view() =~= seq!["."@, "create"@, "/Groups/"@ + group.group_name@]);
                let r = vec![exec_step(c, args, true, String::new(), None)];
                assert(r.deep_view() =~= macos_add_group(group.deep_view(), Some(c@)));
                r
            },
            None => {
                let r: Vec<Step> = Vec::new();
                assert(r.deep_view() =~= seq![]);
                r
            },
        }
    }
}

impl GroupProvider for MacOsGroupProvider {
    open spec fn add_group_outcome(&self, group: GroupVariantModel, p: Seq<char>, steps: Seq<StepModel>) -> bool {
        exists|cli: Option<Seq<char>>| steps == #[trigger] macos_add_group(group, cli)
    }

    fn add_group(&self, group: &GroupVariant, contexts: &Contexts) -> (r: Vec<Step>) {
        let cli = locate_executable("dscl");
        let r = MacOsGroupProvider::add_group_with_cli(group, cli);
        assert(macos_add_group(group.deep_view(), cli.deep_view()) == r.deep_view());
        r
    }
}

impl GroupProvider for NoneGroupProvider {
    open spec fn add_group_outcome(&self, group: GroupVariantModel, p: Seq<char>, steps: Seq<StepModel>) -> bool {
        steps == Seq::<StepModel>::empty()
    }

    fn add_group(&self, group: &GroupVariant, contexts: &Contexts) -> (r: Vec<Step>) {
        let r: Vec<Step> = Vec::new();
        assert(r.deep_view() =~= seq![]);
        r
    }
}

/// One group provider of each kind.
#[derive(Debug, PartialEq, Eq)]
pub enum GroupProviderImpl {
    NoProvider(NoneGroupProvider),
    FreeBSD(FreeBSDGroupProvider),
    Linux(LinuxGroupProvider),
    MacOs(MacOsGroupProvider),
}

/// The group provider that plans for `kind`.
pub open spec fn group_provider_for(kind: GroupProviders) -> GroupProviderImpl {
    match kind {
        GroupProviders::NoProvider => GroupProviderImpl::NoProvider(NoneGroupProvider {}),
        GroupProviders::FreeBSD => GroupProviderImpl::FreeBSD(FreeBSDGroupProvider {}),
        GroupProviders::Linux => GroupProviderImpl::Linux(LinuxGroupProvider {}),
        GroupProviders::MacOs => GroupProviderImpl::MacOs(MacOsGroupProvider {}),
    }
}

impl GroupProvider for GroupProviderImpl {
    open spec fn add_group_outcome(&self, group: GroupVariantModel, p: Seq<char>, steps: Seq<StepModel>) -> bool {
        match self {
            GroupProviderImpl::NoProvider(g) => g.add_group_outcome(group, p, steps),
            GroupProviderImpl::FreeBSD(g) => g.add_group_outcome(group, p, steps),
            GroupProviderImpl::Linux(g) => g.add_group_outcome(group, p, steps),
            GroupProviderImpl::MacOs(g) => g.add_group_outcome(group, p, steps),
        }
    }

    fn add_group(&self, group: &GroupVariant, contexts: &Contexts) -> (r: Vec<Step>) {
        match self {
            GroupProviderImpl::NoProvider(g) => g.add_group(group, contexts),
            GroupProviderImpl::FreeBSD(g) => g.add_group(group, contexts),
            GroupProviderImpl::Linux(g) => g.add_group(group, contexts),
            GroupProviderImpl::MacOs(g) => g.add_group(group, contexts),
        }
    }
}

/// A group without a name is never created: whatever the provider, adding
/// it plans no step.
pub proof fn lemma_unnamed_group_adds_nothing(
    provider: GroupProviderImpl,
    group: GroupVariantModel,
    p: Seq<char>,
    steps: Seq<StepModel>,
)
    requires
        group.group_name.len() == 0,
        provider.add_group_outcome(group, p, steps),
    ensures
        steps.len() == 0,
{
    match provider {
        GroupProviderImpl::Linux(g) => {
            let cli = choose|cli: Option<Seq<char>>| steps == #[trigger] linux_add_group(group, cli);
        },
        GroupProviderImpl::MacOs(g) => {
            let cli = choose|cli: Option<Seq<char>>| steps == #[trigger] macos_add_group(group, cli);
        },
        _ => {},
    }
}

/// On Linux, a group with a name is created by one privileged run of the
/// `groupadd` that was found, whose only argument is that name; nothing is
/// run where no `groupadd` was found or the name is empty.
pub proof fn lemma_linux_group_is_created_under_its_name(group: GroupVariantModel, cli: Option<Seq<char>>)
    ensures
        ({
            let steps = linux_add_group(group, cli);
            &&& (cli is None || group.group_name.len() == 0) ==> steps.len() == 0
            &&& (cli is Some && group.group_name.len() > 0) ==> {
                &&& steps.len() == 1
                &&& steps[0].atom is Exec
                &&& steps[0].atom->Exec_0.command == cli->0
                &&& steps[0].atom->Exec_0.privileged
                &&& steps[0].atom->Exec_0.arguments == seq![group.group_name]
            }
        }),
{
}

/// On FreeBSD, a group with a name is created by one privileged
/// `/usr/bin/pw groupadd <name>`; nothing is run for an empty name.
pub proof fn lemma_freebsd_group_is_created_under_its_name(group: GroupVariantModel, p: Seq<char>)
    ensures
        ({
            let steps = freebsd_add_group(group, p);
            &&& group.group_name.len() == 0 ==> steps.len() == 0
            &&& group.group_name.len() > 0 ==> {
                &&& steps.len() == 1
                &&& steps[0].atom is Exec
                &&& steps[0].atom->Exec_0.command == "/usr/bin/pw"@
                &&& steps[0].atom->Exec_0.privileged
                &&& steps[0].atom->Exec_0.arguments == seq!["groupadd"@, group.group_name]
            }
        }),
{
}

/// On macOS, a group with a name is created by one privileged run of the
/// `dscl` that was found, creating the record `/Groups/<name>`; nothing is
/// run where no `dscl` was found or the name is empty.
pub proof fn lemma_macos_group_is_created_under_its_name(group: GroupVariantModel, cli: Option<Seq<char>>)
    ensures
        ({
            let steps = macos_add_group(group, cli);
            &&& (cli is None || group.group_name.len() == 0) ==> steps.len() == 0
            &&& (cli is Some && group.group_name.len() > 0) ==> {
                &&& steps.len() == 1
                &&& steps[0].atom is Exec
                &&& steps[0].atom->Exec_0.command == cli->0
                &&& steps[0].atom->Exec_0.privileged
                &&& steps[0].atom->Exec_0.arguments == seq!["."@, "create"@, "/Groups/"@ + group.group_name]
            }
        }),
{
}

} // verus!
