use vstd::prelude::*;

use crate::steps::{bare, plain_exec, Atom, AtomModel, Exec, Step, StepModel};

verus! {

/// A `defaults write` of one macOS preference.
#[derive(Debug, PartialEq, Eq)]
pub struct MacOSDefault {
    pub domain: String,
    pub key: String,
    pub kind: String,
    pub value: String,
}

/// The steps that write the preference.
pub open spec fn macos_default_plan(domain: Seq<char>, key: Seq<char>, kind: Seq<char>, value: Seq<char>) -> Seq<StepModel> {
    seq![bare(AtomModel::Exec(plain_exec(
        "defaults"@,
        seq!["write"@, domain, key, "-"@ + kind, value],
    )))]
}

impl MacOSDefault {
    /// One step: `defaults write <domain> <key> -<kind> <value>`.
    pub fn plan(&self) -> (steps: Vec<Step>)
        ensures
            steps.deep_view() == macos_default_plan(self.domain@, self.key@, self.kind@, self.value@),
    {
        let args = vec![
            String::from_str("write"),
            self.domain.clone(),
            self.key.clone(),
            String::from_str("-").concat(self.kind.as_str()),
            self.value.clone(),
        ];
        let exec = Exec {
            command: String::from_str("defaults"),
            arguments: args,
            environment: Vec::new(),
            privileged: false,
            privilege_provider: String::new(),
            working_dir: None,
        };
        assert(exec.arguments.deep_view() =~= seq!["write"@, self.domain@, self.key@, "-"@ + self.kind@, self.value@]);
        assert(exec.environment.deep_view() =~= seq![]);
        let steps = vec![Step::bare(Atom::Exec(exec))];
        assert(steps.deep_view() =~= macos_default_plan(self.domain@, self.key@, self.kind@, self.value@));
        steps
    }
}

} // verus!
