use vstd::prelude::*;

verus! {

/// A command to run, with its environment and privilege settings.
#[derive(Debug, PartialEq, Eq)]
pub struct Exec {
    pub command: String,
    pub arguments: Vec<String>,
    pub environment: Vec<(String, String)>,
    pub privileged: bool,
    pub privilege_provider: String,
    pub working_dir: Option<String>,
}

/// Mathematical model of an [`Exec`].
pub struct ExecModel {
    pub command: Seq<char>,
    pub arguments: Seq<Seq<char>>,
    pub environment: Seq<(Seq<char>, Seq<char>)>,
    pub privileged: bool,
    pub privilege_provider: Seq<char>,
    pub working_dir: Option<Seq<char>>,
}

impl DeepView for Exec {
    type V = ExecModel;

    open spec fn deep_view(&self) -> ExecModel {
        ExecModel {
            command: self.command@,
            arguments: self.arguments.deep_view(),
            environment: self.environment.deep_view(),
            privileged: self.privileged,
            privilege_provider: self.privilege_provider@,
            working_dir: self.working_dir.deep_view(),
        }
    }
}

/// The model of a command with the given arguments and every other setting
/// at its default: no environment, unprivileged, no provider, no directory.
pub open spec fn plain_exec(command: Seq<char>, arguments: Seq<Seq<char>>) -> ExecModel {
    ExecModel {
        command,
        arguments,
        environment: seq![],
        privileged: false,
        privilege_provider: seq![],
        working_dir: None,
    }
}

/// The model of a privileged command run through `provider`.
pub open spec fn privileged_exec(
    command: Seq<char>,
    arguments: Seq<Seq<char>>,
    environment: Seq<(Seq<char>, Seq<char>)>,
    provider: Seq<char>,
) -> ExecModel {
    ExecModel {
        command,
        arguments,
        environment,
        privileged: true,
        privilege_provider: provider,
        working_dir: None,
    }
}

/// The smallest unit of work a step performs.
#[derive(Debug, PartialEq, Eq)]
pub enum Atom {
    Exec(Exec),
    DirectoryCreate { path: String },
    DirectoryRemove { target: String },
    FileCreate { path: String },
    FileChmod { path: String, mode: u32 },
    FileChown { path: String, owner: String, group: String },
    FileRemove { target: String },
    FileLink { source: String, target: String },
    FileUnarchive { origin: String, dest: String, force: bool },
    FileDecrypt { encrypted_content: Vec<u8>, path: String, passphrase: String },
    FileSetContents { path: String, contents: Vec<u8> },
    HttpDownload { url: String, to: String },
    GitClone { repository: String, reference: Option<String>, directory: String },
    PluginCall { name: String, arguments: Vec<String> },
}

/// Mathematical model of an [`Atom`].
pub enum AtomModel {
    Exec(ExecModel),
    DirectoryCreate { path: Seq<char> },
    DirectoryRemove { target: Seq<char> },
    FileCreate { path: Seq<char> },
    FileChmod { path: Seq<char>, mode: u32 },
    FileChown { path: Seq<char>, owner: Seq<char>, group: Seq<char> },
    FileRemove { target: Seq<char> },
    FileLink { source: Seq<char>, target: Seq<char> },
    FileUnarchive { origin: Seq<char>, dest: Seq<char>, force: bool },
    FileDecrypt { encrypted_content: Seq<u8>, path: Seq<char>, passphrase: Seq<char> },
    FileSetContents { path: Seq<char>, contents: Seq<u8> },
    HttpDownload { url: Seq<char>, to: Seq<char> },
    GitClone { repository: Seq<char>, reference: Option<Seq<char>>, directory: Seq<char> },
    PluginCall { name: Seq<char>, arguments: Seq<Seq<char>> },
}

impl DeepView for Atom {
    type V = AtomModel;

    open spec fn deep_view(&self) -> AtomModel {
        match self {
            Atom::Exec(e) => AtomModel::Exec(e.deep_view()),
            Atom::DirectoryCreate { path } => AtomModel::DirectoryCreate { path: path@ },
            Atom::DirectoryRemove { target } => AtomModel::DirectoryRemove { target: target@ },
            Atom::FileCreate { path } => AtomModel::FileCreate { path: path@ },
            Atom::FileChmod { path, mode } => AtomModel::FileChmod { path: path@, mode: *mode },
            Atom::FileChown { path, owner, group } => AtomModel::FileChown {
                path: path@,
                owner: owner@,
                group: group@,
            },
            Atom::FileRemove { target } => AtomModel::FileRemove { target: target@ },
            Atom::FileLink { source, target } => AtomModel::FileLink {
                source: source@,
                target: target@,
            },
            Atom::FileUnarchive { origin, dest, force } => AtomModel::FileUnarchive {
                origin: origin@,
                dest: dest@,
                force: *force,
            },
            Atom::FileDecrypt { encrypted_content, path, passphrase } => AtomModel::FileDecrypt {
                encrypted_content: encrypted_content@,
                path: path@,
                passphrase: passphrase@,
            },
            Atom::FileSetContents { path, contents } => AtomModel::FileSetContents {
                path: path@,
                contents: contents@,
            },
            Atom::HttpDownload { url, to } => AtomModel::HttpDownload { url: url@, to: to@ },
            Atom::GitClone { repository, reference, directory } => AtomModel::GitClone {
                repository: repository@,
                reference: reference.deep_view(),
                directory: directory@,
            },
            Atom::PluginCall { name, arguments } => AtomModel::PluginCall {
                name: name@,
                arguments: arguments.deep_view(),
            },
        }
    }
}

/// A check that runs before a step.
#[derive(Debug, PartialEq, Eq)]
pub enum InitializerCheck {
    /// Holds when the path exists.
    FileExists(String),
    /// Sets environment variables; holds when they could be set.
    SetEnvVars(Vec<(String, String)>),
}

/// How the outcome of an initializer check gates its step.
#[derive(Debug, PartialEq, Eq)]
pub enum Initializer {
    /// The step runs only when the check holds.
    Ensure(InitializerCheck),
    /// The step is skipped when the check holds.
    SkipIf(InitializerCheck),
}

/// A check that runs after a step.
#[derive(Debug, PartialEq, Eq)]
pub enum FinalizerCheck {
    /// Holds when the output of the step contains the text.
    OutputContains(String),
    /// Removes environment variables; holds when they could be removed.
    RemoveEnvVars(Vec<(String, String)>),
}

/// How the outcome of a finalizer check gates the remaining steps.
#[derive(Debug, PartialEq, Eq)]
pub enum Finalizer {
    /// The remaining steps run only when the check holds.
    Ensure(FinalizerCheck),
    /// The remaining steps stop when the check holds.
    StopIf(FinalizerCheck),
}

pub enum InitializerCheckModel {
    FileExists(Seq<char>),
    SetEnvVars(Seq<(Seq<char>, Seq<char>)>),
}

pub enum InitializerModel {
    Ensure(InitializerCheckModel),
    SkipIf(InitializerCheckModel),
}

pub enum FinalizerCheckModel {
    OutputContains(Seq<char>),
    RemoveEnvVars(Seq<(Seq<char>, Seq<char>)>),
}

pub enum FinalizerModel {
    Ensure(FinalizerCheckModel),
    StopIf(FinalizerCheckModel),
}

impl DeepView for InitializerCheck {
    type V = InitializerCheckModel;

    open spec fn deep_view(&self) -> InitializerCheckModel {
        match self {
            InitializerCheck::FileExists(p) => InitializerCheckModel::FileExists(p@),
            InitializerCheck::SetEnvVars(e) => InitializerCheckModel::SetEnvVars(e.deep_view()),
        }
    }
}

impl DeepView for Initializer {
    type V = InitializerModel;

    open spec fn deep_view(&self) -> InitializerModel {
        match self {
            Initializer::Ensure(c) => InitializerModel::Ensure(c.deep_view()),
            Initializer::SkipIf(c) => InitializerModel::SkipIf(c.deep_view()),
        }
    }
}

impl DeepView for FinalizerCheck {
    type V = FinalizerCheckModel;

    open spec fn deep_view(&self) -> FinalizerCheckModel {
        match self {
            FinalizerCheck::OutputContains(t) => FinalizerCheckModel::OutputContains(t@),
            FinalizerCheck::RemoveEnvVars(e) => FinalizerCheckModel::RemoveEnvVars(e.deep_view()),
        }
    }
}

impl DeepView for Finalizer {
    type V = FinalizerModel;

    open spec fn deep_view(&self) -> FinalizerModel {
        match self {
            Finalizer::Ensure(c) => FinalizerModel::Ensure(c.deep_view()),
            Finalizer::StopIf(c) => FinalizerModel::StopIf(c.deep_view()),
        }
    }
}

/// An atom together with the checks that gate it.
#[derive(Debug, PartialEq, Eq)]
pub struct Step {
    pub atom: Atom,
    pub initializers: Vec<Initializer>,
    pub finalizers: Vec<Finalizer>,
}

/// Mathematical model of a [`Step`].
pub struct StepModel {
    pub atom: AtomModel,
    pub initializers: Seq<InitializerModel>,
    pub finalizers: Seq<FinalizerModel>,
}

impl DeepView for Step {
    type V = StepModel;

    open spec fn deep_view(&self) -> StepModel {
        StepModel {
            atom: self.atom.deep_view(),
            initializers: self.initializers.deep_view(),
            finalizers: self.finalizers.deep_view(),
        }
    }
}

/// The model of a step with no initializers and no finalizers.
pub open spec fn bare(atom: AtomModel) -> StepModel {
    StepModel { atom, initializers: seq![], finalizers: seq![] }
}

impl Step {
    /// A step that runs `atom` with no initializers and no finalizers.
    pub fn bare(atom: Atom) -> (s: Step)
        ensures
            s.deep_view() == bare(atom.deep_view()),
    {
        let s = Step { atom, initializers: Vec::new(), finalizers: Vec::new() };
        assert(s.initializers.deep_view() =~= Seq::<InitializerModel>::empty());
        assert(s.finalizers.deep_view() =~= Seq::<FinalizerModel>::empty());
        s
    }
}

/// The model of a step that runs a plain command.
pub open spec fn plain_step_model(command: Seq<char>, arguments: Seq<Seq<char>>) -> StepModel {
    bare(AtomModel::Exec(plain_exec(command, arguments)))
}

/// The model of a step that runs a privileged command.
pub open spec fn privileged_step_model(
    command: Seq<char>,
    arguments: Seq<Seq<char>>,
    environment: Seq<(Seq<char>, Seq<char>)>,
    provider: Seq<char>,
) -> StepModel {
    bare(AtomModel::Exec(privileged_exec(command, arguments, environment, provider)))
}

/// A step that runs `command` with `arguments` and default settings.
pub fn plain_step(command: &str, arguments: Vec<String>) -> (s: Step)
    ensures
        s.deep_view() == plain_step_model(command@, arguments.deep_view()),
{
    let exec = Exec {
        command: command.to_owned(),
        arguments,
        environment: Vec::new(),
        privileged: false,
        privilege_provider: String::new(),
        working_dir: None,
    };
    assert(exec.environment.deep_view() =~= seq![]);
    Step::bare(Atom::Exec(exec))
}

/// A step that runs `command` with `arguments` and `environment`,
/// privileged through `provider`.
pub fn privileged_step(
    command: &str,
    arguments: Vec<String>,
    environment: Vec<(String, String)>,
    provider: String,
) -> (s: Step)
    ensures
        s.deep_view() == privileged_step_model(
            command@,
            arguments.deep_view(),
            environment.deep_view(),
            provider@,
        ),
{
    let exec = Exec {
        command: command.to_owned(),
        arguments,
        environment,
        privileged: true,
        privilege_provider: provider,
        working_dir: None,
    };
    Step::bare(Atom::Exec(exec))
}

/// The model of a step that runs a command with no environment.
pub open spec fn exec_step_model(
    command: Seq<char>,
    arguments: Seq<Seq<char>>,
    privileged: bool,
    provider: Seq<char>,
    working_dir: Option<Seq<char>>,
) -> StepModel {
    bare(
        AtomModel::Exec(
            ExecModel {
                command,
                arguments,
                environment: seq![],
                privileged,
                privilege_provider: provider,
                working_dir,
            },
        ),
    )
}

/// A step that runs a command with no environment.
pub fn exec_step(
    command: String,
    arguments: Vec<String>,
    privileged: bool,
    provider: String,
    working_dir: Option<String>,
) -> (s: Step)
    ensures
        s.deep_view() == exec_step_model(
            command@,
            arguments.deep_view(),
            privileged,
            provider@,
            working_dir.deep_view(),
        ),
{
    let exec = Exec {
        command,
        arguments,
        environment: Vec::new(),
        privileged,
        privilege_provider: provider,
        working_dir,
    };
    assert(exec.environment.deep_view() =~= seq![]);
    Step::bare(Atom::Exec(exec))
}

/// Whether a gate lets the work go on, given whether its check held:
/// `Ensure` lets it go on only where the check held, the other kind only
/// where it did not.
pub open spec fn gate_allows(is_ensure: bool, held: bool) -> bool {
    if is_ensure {
        held
    } else {
        !held
    }
}

/// Whether every initializer of the step lets it run, given whether each
/// one's check held.
pub open spec fn initializers_allow(initializers: Seq<InitializerModel>, held: Seq<bool>) -> bool {
    forall|i: int|
        0 <= i < initializers.len() ==> gate_allows(#[trigger] initializers[i] is Ensure, held[i])
}

/// Whether every finalizer of the step lets the work go on, given whether
/// each one's check held.
pub open spec fn finalizers_allow(finalizers: Seq<FinalizerModel>, held: Seq<bool>) -> bool {
    forall|i: int| 0 <= i < finalizers.len() ==> gate_allows(#[trigger] finalizers[i] is Ensure, held[i])
}

impl Step {
    /// Whether the step may run, given whether the check of each of its
    /// initializers held.
    pub fn initializers_allow(&self, held: &Vec<bool>) -> (r: bool)
        requires
            held@.len() == self.initializers@.len(),
        ensures
            r == initializers_allow(self.initializers.deep_view(), held@),
    {
        let mut i: usize = 0;
        while i < self.initializers.len()
            invariant
                held@.len() == self.initializers@.len(),
                i <= self.initializers@.len(),
                forall|j: int|
                    0 <= j < i ==> gate_allows(#[trigger] self.initializers.deep_view()[j] is Ensure, held@[j]),
            decreases self.initializers.len() - i,
        {
            let is_ensure = match &self.initializers[i] {
                Initializer::Ensure(_) => true,
                Initializer::SkipIf(_) => false,
            };
            assert(self.initializers.deep_view()[i as int] == self.initializers@[i as int].deep_view());
            if is_ensure != held[i] {
                return false;
            }
            i = i + 1;
        }
        true
    }

    /// Whether the work may go on after the step, given whether the check
    /// of each of its finalizers held.
    pub fn finalizers_allow(&self, held: &Vec<bool>) -> (r: bool)
        requires
            held@.len() == self.finalizers@.len(),
        ensures
            r == finalizers_allow(self.finalizers.deep_view(), held@),
    {
        let mut i: usize = 0;
        while i < self.finalizers.len()
            invariant
                held@.len() == self.finalizers@.len(),
                i <= self.finalizers@.len(),
                forall|j: int|
                    0 <= j < i ==> gate_allows(#[trigger] self.finalizers.deep_view()[j] is Ensure, held@[j]),
            decreases self.finalizers.len() - i,
        {
            let is_ensure = match &self.finalizers[i] {
                Finalizer::Ensure(_) => true,
                Finalizer::StopIf(_) => false,
            };
            assert(self.finalizers.deep_view()[i as int] == self.finalizers@[i as int].deep_view());
            if is_ensure != held[i] {
                return false;
            }
            i = i + 1;
        }
        true
    }
}

} // verus!
