use vstd::prelude::*;

verus! {

/// What ordering and running read of an action of a manifest: whether it
/// may need privileges.
#[derive(Debug, PartialEq, Eq, Structural, Clone, Copy)]
pub enum ActionKind {
    /// `command.run`, privileged or not.
    CommandRun { privileged: bool },
    /// `package.install`.
    PackageInstall,
    /// `package.repository`.
    PackageRepository,
    /// Any other action.
    Other,
}

/// Whether an action needs the user's password: a privileged command, or
/// any package action.
pub open spec fn needs_password(kind: ActionKind) -> bool {
    match kind {
        ActionKind::CommandRun { privileged } => privileged,
        ActionKind::PackageInstall | ActionKind::PackageRepository => true,
        ActionKind::Other => false,
    }
}

impl ActionKind {
    /// Whether the action needs the user's password.
    pub fn needs_password(&self) -> (r: bool)
        ensures
            r == needs_password(*self),
    {
        match self {
            ActionKind::CommandRun { privileged } => *privileged,
            ActionKind::PackageInstall | ActionKind::PackageRepository => true,
            ActionKind::Other => false,
        }
    }
}

/// What planning and ordering read of a manifest: its name, the directory
/// it was loaded from, the manifests it depends on, its labels, its `where`
/// condition and its actions.
#[derive(Debug, PartialEq, Eq)]
pub struct Manifest {
    pub name: Option<String>,
    pub root_dir: Option<String>,
    pub depends: Vec<String>,
    pub labels: Vec<String>,
    pub where_condition: Option<String>,
    pub actions: Vec<ActionKind>,
}

} // verus!
