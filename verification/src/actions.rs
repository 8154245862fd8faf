use vstd::prelude::*;

use crate::files::manifest_file_path;
use crate::host::normalize_path;
use crate::manifest::Manifest;
use crate::contexts::Contexts;
use crate::steps::{
    bare, Atom, AtomModel, Exec, ExecModel, Finalizer, FinalizerCheck, FinalizerCheckModel,
    FinalizerModel, Initializer, InitializerCheck, InitializerCheckModel, InitializerModel, Step,
    StepModel,
};
use crate::text::{clone_opt, clone_pairs, clone_strings, no_pairs};

verus! {

/// Creates a directory.
#[derive(Debug, PartialEq, Eq)]
pub struct DirectoryCreate {
    pub path: String,
}

impl DirectoryCreate {
    /// One step that creates the directory.
    pub fn plan(&self) -> (r: Vec<Step>)
        ensures
            r.deep_view() == seq![bare(AtomModel::DirectoryCreate { path: self.path@ })],
    {
        let r = vec![Step::bare(Atom::DirectoryCreate { path: self.path.clone() })];
        assert(r.deep_view() =~= seq![bare(AtomModel::DirectoryCreate { path: self.path@ })]);
        r
    }

    pub fn summarize(&self) -> (r: String)
        ensures
            r@ == "Creating directory "@ + self.path@,
    {
        String::from_str("Creating directory ").concat(self.path.as_str())
    }
}

/// Removes a directory.
#[derive(Debug, PartialEq, Eq)]
pub struct DirectoryRemove {
    pub target: String,
}

impl DirectoryRemove {
    /// One step that removes the directory.
    pub fn plan(&self) -> (r: Vec<Step>)
        ensures
            r.deep_view() == seq![bare(AtomModel::DirectoryRemove { target: self.target@ })],
    {
        let r = vec![Step::bare(Atom::DirectoryRemove { target: self.target.clone() })];
        assert(r.deep_view() =~= seq![bare(AtomModel::DirectoryRemove { target: self.target@ })]);
        r
    }

    pub fn summarize(&self) -> (r: String)
        ensures
            r@ == "Removing directory "@ + self.target@,
    {
        String::from_str("Removing directory ").concat(self.target.as_str())
    }
}

/// Actions on directories, which resolve paths within a manifest's
/// `files` directory.
pub trait DirectoryAction {
    /// The normalized path of `path` within the `files` directory of the
    /// manifest; `None` where the manifest has no directory or the path
    /// cannot be normalized (the case in which the caller stops).
    fn resolve(&self, manifest: &Manifest, path: &str) -> (r: Option<String>)
        ensures
            manifest.root_dir is None ==> r is None,
    {
        match &manifest.root_dir {
            None => None,
            Some(root) => {
                let joined = manifest_file_path(root.as_str(), path);
                normalize_path(joined.as_str())
            },
        }
    }
}

impl DirectoryAction for DirectoryRemove {}

/// Changes the owner and the group of a file.
#[derive(Debug, PartialEq, Eq)]
pub struct FileChown {
    pub path: String,
    pub user: Option<String>,
    pub group: Option<String>,
}

/// The text of an optional setting, or the empty text.
pub open spec fn or_empty(s: Option<Seq<char>>) -> Seq<char> {
    match s {
        Some(v) => v,
        None => seq![],
    }
}

fn text_or_empty(s: &Option<String>) -> (r: String)
    ensures
        r@ == or_empty(s.deep_view()),
{
    match s {
        Some(v) => v.clone(),
        None => String::new(),
    }
}

impl FileChown {
    /// One step that sets the owner and the group, an unset one as empty.
    pub fn plan(&self) -> (r: Vec<Step>)
        ensures
            r.deep_view() == seq![
                bare(
                    AtomModel::FileChown {
                        path: self.path@,
                        owner: or_empty(self.user.deep_view()),
                        group: or_empty(self.group.deep_view()),
                    },
                ),
            ],
    {
        let r = vec![
            Step::bare(
                Atom::FileChown {
                    path: self.path.clone(),
                    owner: text_or_empty(&self.user),
                    group: text_or_empty(&self.group),
                },
            ),
        ];
        assert(r.deep_view() =~= seq![
            bare(
                AtomModel::FileChown {
                    path: self.path@,
                    owner: or_empty(self.user.deep_view()),
                    group: or_empty(self.group.deep_view()),
                },
            ),
        ]);
        r
    }

    pub fn summarize(&self) -> (r: String)
        ensures
            r@ == "Changing ownership for file "@ + self.path@,
    {
        String::from_str("Changing ownership for file ").concat(self.path.as_str())
    }
}

/// Removes a file.
#[derive(Debug, PartialEq, Eq)]
pub struct FileRemove {
    pub target: String,
}

impl FileRemove {
    /// One step that removes the file.
    pub fn plan(&self) -> (r: Vec<Step>)
        ensures
            r.deep_view() == seq![bare(AtomModel::FileRemove { target: self.target@ })],
    {
        let r = vec![Step::bare(Atom::FileRemove { target: self.target.clone() })];
        assert(r.deep_view() =~= seq![bare(AtomModel::FileRemove { target: self.target@ })]);
        r
    }

    pub fn summarize(&self) -> (r: String)
        ensures
            r@ == "Removing file "@ + self.target@,
    {
        String::from_str("Removing file ").concat(self.target.as_str())
    }
}

/// Unpacks an archive into a directory.
#[derive(Debug, PartialEq, Eq)]
pub struct FileUnarchive {
    pub from: String,
    pub to: String,
    pub force: Option<bool>,
}

impl FileUnarchive {
    /// One step that unpacks `from` into `to`, forcing unless told not to.
    pub fn plan(&self) -> (r: Vec<Step>)
        ensures
            r.deep_view() == seq![
                bare(
                    AtomModel::FileUnarchive {
                        origin: self.from@,
                        dest: self.to@,
                        force: match self.force {
                            Some(f) => f,
                            None => true,
                        },
                    },
                ),
            ],
    {
        let force = match self.force {
            Some(f) => f,
            None => true,
        };
        let r = vec![
            Step::bare(Atom::FileUnarchive { origin: self.from.clone(), dest: self.to.clone(), force }),
        ];
        assert(r.deep_view() =~= seq![
            bare(AtomModel::FileUnarchive { origin: self.from@, dest: self.to@, force }),
        ]);
        r
    }

    pub fn summarize(&self) -> (r: String)
        ensures
            r@ == "Unarchiving file "@ + self.from@ + " to "@ + self.to@,
    {
        String::from_str("Unarchiving file ").concat(self.from.as_str()).concat(" to ").concat(
            self.to.as_str(),
        )
    }
}

/// Runs a command with extra environment variables.
#[derive(Debug, PartialEq, Eq)]
pub struct RunCommand {
    pub command: String,
    pub args: Vec<String>,
    pub privileged: bool,
    pub dir: String,
    pub env: Vec<(String, String)>,
}

/// The default of the `privileged` setting.
pub fn get_false() -> (r: bool)
    ensures
        r == false,
{
    false
}

/// The step that runs a command: its environment variables are set before
/// it and removed after it.
pub open spec fn run_command_plan(
    command: Seq<char>,
    args: Seq<Seq<char>>,
    privileged: bool,
    dir: Seq<char>,
    env: Seq<(Seq<char>, Seq<char>)>,
    p: Seq<char>,
) -> Seq<StepModel> {
    seq![
        StepModel {
            atom: AtomModel::Exec(
                ExecModel {
                    command,
                    arguments: args,
                    environment: seq![],
                    privileged,
                    privilege_provider: p,
                    working_dir: Some(dir),
                },
            ),
            initializers: seq![InitializerModel::Ensure(InitializerCheckModel::SetEnvVars(env))],
            finalizers: seq![FinalizerModel::Ensure(FinalizerCheckModel::RemoveEnvVars(env))],
        },
    ]
}

impl RunCommand {
    /// One step that runs the command in its directory.
    pub fn plan(&self, contexts: &Contexts) -> (r: Vec<Step>)
        ensures
            r.deep_view() == run_command_plan(
                self.command@,
                self.args.deep_view(),
                self.privileged,
                self.dir@,
                self.env.deep_view(),
                contexts.privilege(),
            ),
    {
        let exec = Exec {
            command: self.command.clone(),
            arguments: clone_strings(&self.args),
            environment: no_pairs(),
            privileged: self.privileged,
            privilege_provider: contexts.privilege_provider_or_sudo(),
            working_dir: Some(self.dir.clone()),
        };
        let step = Step {
            atom: Atom::Exec(exec),
            initializers: vec![Initializer::Ensure(InitializerCheck::SetEnvVars(clone_pairs(&self.env)))],
            finalizers: vec![Finalizer::Ensure(FinalizerCheck::RemoveEnvVars(clone_pairs(&self.env)))],
        };
        assert(step.initializers.deep_view() =~= seq![
            InitializerModel::Ensure(InitializerCheckModel::SetEnvVars(self.env.deep_view())),
        ]);
        assert(step.finalizers.deep_view() =~= seq![
            FinalizerModel::Ensure(FinalizerCheckModel::RemoveEnvVars(self.env.deep_view())),
        ]);
        let r = vec![step];
        assert(r.deep_view() =~= run_command_plan(
            self.command@,
            self.args.deep_view(),
            self.privileged,
            self.dir@,
            self.env.deep_view(),
            contexts.privilege(),
        ));
        r
    }

    pub fn summarize(&self) -> (r: String)
        ensures
            r@ == "Running "@ + self.command@ + " command"@,
    {
        String::from_str("Running ").concat(self.command.as_str()).concat(" command")
    }
}

/// Clones a git repository.
#[derive(Debug, PartialEq, Eq)]
pub struct GitClone {
    pub repository: String,
    pub reference: Option<String>,
    pub directory: String,
}

impl GitClone {
    /// One step that clones the repository at the reference into the directory.
    pub fn plan(&self) -> (r: Vec<Step>)
        ensures
            r.deep_view() == seq![
                bare(
                    AtomModel::GitClone {
                        repository: self.repository@,
                        reference: self.reference.deep_view(),
                        directory: self.directory@,
                    },
                ),
            ],
    {
        let r = vec![
            Step::bare(
                Atom::GitClone {
                    repository: self.repository.clone(),
                    reference: clone_opt(&self.reference),
                    directory: self.directory.clone(),
                },
            ),
        ];
        assert(r.deep_view() =~= seq![
            bare(
                AtomModel::GitClone {
                    repository: self.repository@,
                    reference: self.reference.deep_view(),
                    directory: self.directory@,
                },
            ),
        ]);
        r
    }
}

/// Downloads a tagged source archive of a GitHub repository and unpacks it.
#[derive(Debug, PartialEq, Eq)]
pub struct ArchiveGithub {
    pub repository: String,
    pub version: String,
    pub extension: String,
    pub dest: String,
    pub path: String,
}

/// The address of the archive of `repository` at tag `version`.
pub open spec fn archive_url(repository: Seq<char>, version: Seq<char>, extension: Seq<char>) -> Seq<char> {
    "https://github.com/"@ + repository + "/archive/refs/tags/"@ + version + "."@ + extension
}

impl ArchiveGithub {
    /// The address of the archive.
    pub fn url(&self) -> (r: String)
        ensures
            r@ == archive_url(self.repository@, self.version@, self.extension@),
    {
        String::from_str("https://github.com/").concat(self.repository.as_str()).concat(
            "/archive/refs/tags/",
        ).concat(self.version.as_str()).concat(".").concat(self.extension.as_str())
    }

    /// Two steps: download the archive to `path`, then unpack it into `dest`.
    pub fn plan(&self) -> (r: Vec<Step>)
        ensures
            r.deep_view() == seq![
                bare(
                    AtomModel::HttpDownload {
                        url: archive_url(self.repository@, self.version@, self.extension@),
                        to: self.path@,
                    },
                ),
                bare(AtomModel::FileUnarchive { origin: self.path@, dest: self.dest@, force: true }),
            ],
    {
        let r = vec![
            Step::bare(Atom::HttpDownload { url: self.url(), to: self.path.clone() }),
            Step::bare(
                Atom::FileUnarchive { origin: self.path.clone(), dest: self.dest.clone(), force: true },
            ),
        ];
        assert(r.deep_view() =~= seq![
            bare(
                AtomModel::HttpDownload {
                    url: archive_url(self.repository@, self.version@, self.extension@),
                    to: self.path@,
                },
            ),
            bare(AtomModel::FileUnarchive { origin: self.path@, dest: self.dest@, force: true }),
        ]);
        r
    }
}

/// A command's environment is set just before it runs and removed just
/// after: the one step of a command sets, then removes, the same variables.
pub proof fn lemma_command_environment_is_restored(
    command: Seq<char>,
    args: Seq<Seq<char>>,
    privileged: bool,
    dir: Seq<char>,
    env: Seq<(Seq<char>, Seq<char>)>,
    p: Seq<char>,
)
    ensures
        ({
            let steps = run_command_plan(command, args, privileged, dir, env, p);
            &&& steps.len() == 1
            &&& steps[0].initializers == seq![InitializerModel::Ensure(InitializerCheckModel::SetEnvVars(env))]
            &&& steps[0].finalizers == seq![FinalizerModel::Ensure(FinalizerCheckModel::RemoveEnvVars(env))]
        }),
{
}

} // verus!
