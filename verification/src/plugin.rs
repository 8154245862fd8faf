//! Plugins: where a plugin's source comes from, how its name is written,
//! and which of the actions a manifest asks of it become steps.
use crate::steps::{bare, Atom, AtomModel, Step, StepModel};
use crate::text::{clone_strings, lemma_first_occurrence, split_once, split_once_spec, str_eq};
use vstd::prelude::*;

verus! {

/// A repository on GitHub, written `username/repo`.
#[derive(Debug, PartialEq, Eq)]
pub struct RepoUri {
    pub username: String,
    pub repo: String,
}

/// Why a text is not a repository.
#[derive(PartialEq, Eq, Structural, Clone, Copy, Debug)]
pub enum RepoUriError {
    /// The text has no `/`.
    MissingSlash,
}

/// The text of a repository: `username/repo`.
pub open spec fn repo_uri_text(username: Seq<char>, repo: Seq<char>) -> Seq<char> {
    username + "/"@ + repo
}

impl RepoUri {
    /// Reads `username/repo`, split at the first `/`.
    pub fn from_str(s: &str) -> (r: Result<RepoUri, RepoUriError>)
        ensures
            match split_once_spec(s@, '/') {
                Some((u, p)) => r matches Ok(uri) && uri.username@ == u && uri.repo@ == p,
                None => r == Err::<RepoUri, RepoUriError>(RepoUriError::MissingSlash),
            },
    {
        match split_once(s, '/') {
            Some((username, repo)) => Ok(RepoUri { username, repo }),
            None => Err(RepoUriError::MissingSlash),
        }
    }

    /// Writes `username/repo`.
    pub fn to_string(&self) -> (r: String)
        ensures
            r@ == repo_uri_text(self.username@, self.repo@),
    {
        self.username.clone().concat("/").concat(self.repo.as_str())
    }
}

/// Reading a written repository gives the repository back, where its user
/// name holds no `/`.
pub proof fn lemma_repo_uri_round_trip(username: Seq<char>, repo: Seq<char>)
    requires
        forall|i: int| 0 <= i < username.len() ==> username[i] != '/',
    ensures
        split_once_spec(repo_uri_text(username, repo), '/') == Some((username, repo)),
{
    reveal_strlit("/");
    let s = repo_uri_text(username, repo);
    let k = username.len() as int;
    assert(s[k] == '/');
    let w = choose|i: int| 0 <= i < s.len() && s[i] == '/' && forall|j: int| 0 <= j < i ==> s[j] != '/';
    assert(0 <= w < s.len() && s[w] == '/' && forall|j: int| 0 <= j < w ==> s[j] != '/') by {
        assert(forall|j: int| 0 <= j < k ==> s[j] == username[j]);
    }
    assert(w == k) by {
        if w < k {
            assert(s[w] == username[w]);
        } else if w > k {
            assert(s[k] == '/');
        }
    }
    assert(s.subrange(0, k) =~= username);
    assert(s.subrange(k + 1, s.len() as int) =~= repo);
}

/// Writing a repository read from a text gives the text back.
pub proof fn lemma_repo_uri_text_restored(s: Seq<char>)
    requires
        split_once_spec(s, '/') is Some,
    ensures
        ({
            let (u, p) = split_once_spec(s, '/')->0;
            repo_uri_text(u, p) == s
        }),
{
    reveal_strlit("/");
    let k = choose|k: int| 0 <= k < s.len() && s[k] == '/';
    lemma_first_occurrence(s, '/', k);
    let i = choose|i: int| 0 <= i < s.len() && s[i] == '/' && forall|j: int| 0 <= j < i ==> s[j] != '/';
    let u = s.subrange(0, i);
    let p = s.subrange(i + 1, s.len() as int);
    assert(split_once_spec(s, '/') == Some((u, p)));
    assert("/"@ =~= seq!['/']);
    assert(u + "/"@ + p =~= s);
}

/// Where the text of a plugin is read from; reading it is the caller's
/// work on the machine, so nothing is stated of what comes back.
pub trait Source {
    fn source(&self) -> Result<String, String>;
}

/// Which release of a plugin to use.
#[derive(Debug, PartialEq, Eq)]
pub enum Version {
    Stable,
    Latest,
    Tagged(String),
}

/// The text of a version: `stable`, `latest` or the tag.
pub open spec fn version_text(v: Version) -> Seq<char> {
    match v {
        Version::Stable => "stable"@,
        Version::Latest => "latest"@,
        Version::Tagged(tag) => tag@,
    }
}

impl Version {
    /// The version that is used where none is given.
    pub fn default() -> (v: Version)
        ensures
            v == Version::Stable,
    {
        Version::Stable
    }

    /// Writes the version.
    pub fn to_string(&self) -> (r: String)
        ensures
            r@ == version_text(*self),
    {
        match self {
            Version::Stable => String::from_str("stable"),
            Version::Latest => String::from_str("latest"),
            Version::Tagged(tag) => tag.clone(),
        }
    }
}

/// A plugin kept in a repository, at a version.
#[derive(Debug, PartialEq, Eq)]
pub struct Repo {
    pub repo: RepoUri,
    pub version: Version,
}

impl Repo {
    /// Writes `username/repo:version`.
    pub fn to_string(&self) -> (r: String)
        ensures
            r@ == repo_uri_text(self.repo.username@, self.repo.repo@) + ":"@ + version_text(self.version),
    {
        self.repo.to_string().concat(":").concat(self.version.to_string().as_str())
    }
}

/// A plugin kept in a directory.
#[derive(Debug, PartialEq, Eq)]
pub struct Dir {
    pub dir: String,
}

impl Dir {
    /// Writes the directory.
    pub fn to_string(&self) -> (r: String)
        ensures
            r@ == self.dir@,
    {
        self.dir.clone()
    }
}

/// Where a plugin comes from.
#[derive(Debug, PartialEq, Eq)]
pub enum RepoOrDir {
    Repo(Repo),
    Dir(Dir),
    Invalid,
}

impl RepoOrDir {
    /// Writes where the plugin comes from.
    pub fn to_string(&self) -> (r: String)
        ensures
            match self {
                RepoOrDir::Repo(repo) => r@ == repo_uri_text(repo.repo.username@, repo.repo.repo@) + ":"@
                    + version_text(repo.version),
                RepoOrDir::Dir(dir) => r@ == dir.dir@,
                RepoOrDir::Invalid => r@ == "Invalid Repo or Directory"@,
            },
    {
        match self {
            RepoOrDir::Repo(repo) => repo.to_string(),
            RepoOrDir::Dir(dir) => dir.to_string(),
            RepoOrDir::Invalid => String::from_str("Invalid Repo or Directory"),
        }
    }
}

} // verus!
