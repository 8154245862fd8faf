use vstd::prelude::*;

verus! {

/// The values of the contexts that planning reads: the program through
/// which privileged commands are run, when the configuration names one.
#[derive(Debug, PartialEq, Eq)]
pub struct Contexts {
    pub privilege_provider: Option<String>,
}

impl Contexts {
    /// The privilege provider to use: the configured one, or `sudo`.
    pub open spec fn privilege(&self) -> Seq<char> {
        match self.privilege_provider {
            Some(p) => p@,
            None => "sudo"@,
        }
    }

    /// Contexts in which nothing is configured.
    pub fn empty() -> (c: Contexts)
        ensures
            c.privilege_provider is None,
            c.privilege() == "sudo"@,
    {
        Contexts { privilege_provider: None }
    }

    /// The privilege provider to use: the configured one, or `sudo`.
    pub fn privilege_provider_or_sudo(&self) -> (r: String)
        ensures
            r@ == self.privilege(),
    {
        match &self.privilege_provider {
            Some(p) => p.clone(),
            None => String::from_str("sudo"),
        }
    }
}

} // verus!
