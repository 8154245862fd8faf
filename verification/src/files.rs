use vstd::prelude::*;

use crate::error::{PlanError, PlanErrorModel};
use crate::host::{
    file_name_of, is_directory, is_regular_file, join_path, normalize_path, parent_of, path_file_name, path_join,
    path_parent,
};
use crate::manifest::Manifest;
use crate::package_actions::result_model;
use crate::steps::{
    bare, Atom, AtomModel, Initializer, InitializerCheck, InitializerCheckModel, InitializerModel,
    Step, StepModel,
};

verus! {

/// The path that a path of a manifest's action stands for before it is
/// normalized: `path` under the `files` directory of the root `root`.
pub fn manifest_file_path(root: &str, path: &str) -> (r: String)
    ensures
        r@ == path_join(path_join(root@, "files"@), path@),
{
    let files = join_path(root, "files");
    join_path(files.as_str(), path)
}

/// Where a path of a file action is looked up: under `files` in the
/// manifest's root directory (`manifest_file_path`), normalized.
pub trait FileAction {
    fn resolve(&self, manifest: &Manifest, path: &str) -> (r: Result<String, PlanError>)
        ensures
            match r {
                Ok(_) => manifest.root_dir is Some,
                Err(PlanError::MissingRootDir) => manifest.root_dir is None,
                Err(PlanError::UnresolvedPath { path: p }) => manifest.root_dir is Some && p@ == path@,
                Err(_) => false,
            },
    {
        match &manifest.root_dir {
            None => Err(PlanError::MissingRootDir),
            Some(root) => {
                let joined = manifest_file_path(root.as_str(), path);
                match normalize_path(joined.as_str()) {
                    Some(p) => Ok(p),
                    None => Err(PlanError::UnresolvedPath { path: path.to_owned() }),
                }
            },
        }
    }
}

/// The default file mode, `0o644`.
pub fn default_chmod() -> (r: u32)
    ensures
        r == 0o644,
{
    0o644
}

/// Whether a file is rendered as a template where the manifest does not
/// say: it is not.
pub fn default_template() -> (r: bool)
    ensures
        !r,
{
    false
}

/// Why a text is not an octal mode.
#[derive(Clone, Copy, Debug, PartialEq, Eq, Structural)]
pub enum OctalError {
    Empty,
    InvalidDigit,
    Overflow,
}

/// Whether `c` is an octal digit.
pub open spec fn is_octal_digit(c: char) -> bool {
    '0' <= c && c <= '7'
}

/// Reads the octal digits `ds` after the value `acc` read so far, stopping
/// at the first character that is no octal digit or that makes the value
/// exceed `u32::MAX`.
pub open spec fn scan_octal(ds: Seq<char>, acc: int) -> Result<int, OctalError>
    decreases ds.len(),
{
    if ds.len() == 0 {
        Ok(acc)
    } else if !is_octal_digit(ds[0]) {
        Err(OctalError::InvalidDigit)
    } else if acc * 8 + (ds[0] as int - '0' as int) > u32::MAX {
        Err(OctalError::Overflow)
    } else {
        scan_octal(ds.drop_first(), acc * 8 + (ds[0] as int - '0' as int))
    }
}

/// The value of an octal mode written as text: an optional `+` followed by
/// octal digits, read left to right.
pub open spec fn octal_value(s: Seq<char>) -> Result<int, OctalError> {
    if s.len() == 0 {
        Err(OctalError::Empty)
    } else if s[0] == '+' && s.len() == 1 {
        Err(OctalError::InvalidDigit)
    } else if s[0] == '+' {
        scan_octal(s.drop_first(), 0)
    } else {
        scan_octal(s, 0)
    }
}

proof fn lemma_scan_bounded(ds: Seq<char>, acc: int)
    requires
        0 <= acc <= u32::MAX,
    ensures
        scan_octal(ds, acc) matches Ok(v) ==> 0 <= v <= u32::MAX,
    decreases ds.len(),
{
    if ds.len() > 0 && is_octal_digit(ds[0]) && acc * 8 + (ds[0] as int - '0' as int) <= u32::MAX {
        lemma_scan_bounded(ds.drop_first(), acc * 8 + (ds[0] as int - '0' as int));
    }
}

/// Parses a file mode written in octal, such as `"0777"`.
pub fn from_octal(s: &str) -> (r: Result<u32, OctalError>)
    ensures
        match r {
            Ok(v) => octal_value(s@) == Ok::<int, OctalError>(v as int),
            Err(e) => octal_value(s@) == Err::<int, OctalError>(e),
        },
{
    let n = s.unicode_len();
    if n == 0 {
        return Err(OctalError::Empty);
    }
    let mut i: usize = 0;
    if s.get_char(0) == '+' {
        if n == 1 {
            return Err(OctalError::InvalidDigit);
        }
        i = 1;
    }
    let ghost digits = s@.subrange(i as int, n as int);
    assert(digits =~= if s@[0] == '+' { s@.drop_first() } else { s@ });
    let mut acc: u32 = 0;
    assert(s@.subrange(i as int, n as int) =~= digits);
    assert(octal_value(s@) == scan_octal(digits, 0));
    while i < n
        invariant
            n == s@.len(),
            i <= n,
            octal_value(s@) == scan_octal(digits, 0),
            scan_octal(digits, 0) == scan_octal(s@.subrange(i as int, n as int), acc as int),
        decreases n - i,
    {
        let ghost rest = s@.subrange(i as int, n as int);
        let c = s.get_char(i);
        assert(rest[0] == c);
        if c < '0' || c > '7' {
            return Err(OctalError::InvalidDigit);
        }
        let d: u32 = (c as u32) - ('0' as u32);
        if acc > 0x1fff_ffff || acc * 8 > 0xffff_ffff - d {
            assert(acc as int * 8 + d as int > u32::MAX);
            return Err(OctalError::Overflow);
        }
        assert(rest.drop_first() =~= s@.subrange(i + 1, n as int));
        acc = acc * 8 + d;
        i = i + 1;
    }
    assert(s@.subrange(i as int, n as int) =~= Seq::<char>::empty());
    Ok(acc)
}

/// Copies a file of the manifest to a destination, optionally decrypting it.
#[derive(Debug, PartialEq, Eq)]
pub struct FileCopy {
    pub from: String,
    pub to: String,
    pub chmod: u32,
    pub template: bool,
    pub passphrase: Option<String>,
}

/// Where a copy goes: into the destination directory under the source's
/// file name, when the destination is a directory and the source has a
/// file name (`joined` being the two joined); else to the destination.
/// The destination directory joined with the source's file name, where the
/// source has one.
pub open spec fn copy_joined(to: Seq<char>, from: Seq<char>) -> Option<Seq<char>> {
    match path_file_name(from) {
        Some(name) => Some(path_join(to, name)),
        None => None,
    }
}

pub open spec fn copy_destination(to: Seq<char>, to_is_dir: bool, joined: Option<Seq<char>>) -> Seq<char> {
    if to_is_dir && joined is Some {
        joined->0
    } else {
        to
    }
}

/// The steps of a copy to `dest`: create the parent directory, the file,
/// set its mode, then either decrypt the contents into it (with a
/// passphrase) or write them.
pub open spec fn copy_steps(
    dest: Seq<char>,
    parent: Option<Seq<char>>,
    chmod: u32,
    passphrase: Option<Seq<char>>,
    contents: Seq<u8>,
) -> Result<Seq<StepModel>, PlanErrorModel> {
    match parent {
        None => Err(PlanErrorModel::NoParentDirectory { path: dest }),
        Some(p) => Ok(
            seq![
                bare(AtomModel::DirectoryCreate { path: p }),
                bare(AtomModel::FileCreate { path: dest }),
                bare(AtomModel::FileChmod { path: dest, mode: chmod }),
                copy_last_step(dest, passphrase, contents),
            ],
        ),
    }
}

/// The last step of a copy: decrypt the contents into the file when there
/// is a passphrase, else write them.
pub open spec fn copy_last_step(dest: Seq<char>, passphrase: Option<Seq<char>>, contents: Seq<u8>) -> StepModel {
    match passphrase {
        Some(pass) => bare(
            AtomModel::FileDecrypt { encrypted_content: contents, path: dest, passphrase: pass },
        ),
        None => bare(AtomModel::FileSetContents { path: dest, contents }),
    }
}

impl FileCopy {
    /// The destination, given whether `to` is a directory and the joined
    /// path of `to` and the source's file name (if it has one).
    pub fn destination_with(&self, to_is_dir: bool, joined: Option<String>) -> (r: String)
        ensures
            r@ == copy_destination(self.to@, to_is_dir, joined.deep_view()),
    {
        match joined {
            Some(j) => if to_is_dir {
                j
            } else {
                self.to.clone()
            },
            None => self.to.clone(),
        }
    }

    /// The destination of the copy on this host.
    /// Whether `to` is a directory is asked of the machine; the rest follows
    /// from the two paths.
    pub fn destination(&self) -> (r: String)
        ensures
            exists|d: bool| r@ == #[trigger] copy_destination(self.to@, d, copy_joined(self.to@, self.from@)),
    {
        let to_is_dir = is_directory(self.to.as_str());
        let joined = match file_name_of(self.from.as_str()) {
            Some(name) => Some(join_path(self.to.as_str(), name.as_str())),
            None => None,
        };
        assert(joined.deep_view() == copy_joined(self.to@, self.from@));
        let r = self.destination_with(to_is_dir, joined);
        assert(r@ == copy_destination(self.to@, to_is_dir, copy_joined(self.to@, self.from@)));
        r
    }

    /// The steps that write `contents` to `dest`, whose parent directory
    /// is `parent`.
    pub fn plan_to(&self, dest: String, parent: Option<String>, contents: Vec<u8>) -> (r: Result<
        Vec<Step>,
        PlanError,
    >)
        ensures
            result_model(r) == copy_steps(dest@, parent.deep_view(), self.chmod, self.passphrase.deep_view(), contents@),
    {
        match parent {
            None => {
                let e = PlanError::NoParentDirectory { path: dest };
                assert(e.deep_view() == PlanErrorModel::NoParentDirectory { path: dest@ });
                Err(e)
            },
            Some(p) => {
                let ghost contents_v = contents@;
                let last = match &self.passphrase {
                    Some(pass) => Step::bare(
                        Atom::FileDecrypt {
                            encrypted_content: contents,
                            path: dest.clone(),
                            passphrase: pass.clone(),
                        },
                    ),
                    None => Step::bare(Atom::FileSetContents { path: dest.clone(), contents }),
                };
                let ghost last_v = last.deep_view();
                assert(last_v == copy_last_step(dest@, self.passphrase.deep_view(), contents_v));
                let ghost pv = p@;
                let r = vec![
                    Step::bare(Atom::DirectoryCreate { path: p }),
                    Step::bare(Atom::FileCreate { path: dest.clone() }),
                    Step::bare(Atom::FileChmod { path: dest.clone(), mode: self.chmod }),
                    last,
                ];
                assert(r.deep_view() =~= seq![
                    bare(AtomModel::DirectoryCreate { path: pv }),
                    bare(AtomModel::FileCreate { path: dest@ }),
                    bare(AtomModel::FileChmod { path: dest@, mode: self.chmod }),
                    last_v,
                ]);
                Ok(r)
            },
        }
    }

    /// Plans the copy of `contents` (the source file, rendered when it is a
    /// template) on this host.
    /// Whether the destination is a directory is asked of the machine; the
    /// rest follows from the paths.
    pub fn plan(&self, contents: Vec<u8>) -> (r: Result<Vec<Step>, PlanError>)
        ensures
            exists|d: bool|
                {
                    let dest = #[trigger] copy_destination(self.to@, d, copy_joined(self.to@, self.from@));
                    result_model(r) == copy_steps(
                        dest,
                        path_parent(dest),
                        self.chmod,
                        self.passphrase.deep_view(),
                        contents@,
                    )
                },
    {
        let dest = self.destination();
        let parent = parent_of(dest.as_str());
        let r = self.plan_to(dest, parent, contents);
        r
    }

    pub fn summarize(&self) -> (r: String)
        ensures
            r@ == "Copy file from "@ + self.from@ + " to "@ + self.to@,
    {
        String::from_str("Copy file from ").concat(self.from.as_str()).concat(" to ").concat(
            self.to.as_str(),
        )
    }
}

impl FileAction for FileCopy {}

/// Downloads a file to a path, sets its mode and optionally its owner.
#[derive(Debug, PartialEq, Eq)]
pub struct FileDownload {
    pub from: String,
    pub to: String,
    pub chmod: u32,
    pub template: bool,
    pub owner_user: Option<String>,
    pub owner_group: Option<String>,
}

/// The steps of a download: create the parent directory, download, set the
/// mode, and set the owner when both a user and a group are given.
pub open spec fn download_steps(
    from: Seq<char>,
    to: Seq<char>,
    chmod: u32,
    user: Option<Seq<char>>,
    group: Option<Seq<char>>,
    parent: Option<Seq<char>>,
) -> Result<Seq<StepModel>, PlanErrorModel> {
    match parent {
        None => Err(PlanErrorModel::NoParentDirectory { path: to }),
        Some(p) => {
            let base = seq![
                bare(AtomModel::DirectoryCreate { path: p }),
                bare(AtomModel::HttpDownload { url: from, to }),
                bare(AtomModel::FileChmod { path: to, mode: chmod }),
            ];
            Ok(
                match (user, group) {
                    (Some(u), Some(g)) => base.push(
                        bare(AtomModel::FileChown { path: to, owner: u, group: g }),
                    ),
                    _ => base,
                },
            )
        },
    }
}

impl FileDownload {
    /// The steps of the download, given the parent directory of `to`.
    pub fn plan_with_parent(&self, parent: Option<String>) -> (r: Result<Vec<Step>, PlanError>)
        ensures
            result_model(r) == download_steps(
                self.from@,
                self.to@,
                self.chmod,
                self.owner_user.deep_view(),
                self.owner_group.deep_view(),
                parent.deep_view(),
            ),
    {
        match parent {
            None => Err(PlanError::NoParentDirectory { path: self.to.clone() }),
            Some(p) => {
                let mut steps = vec![
                    Step::bare(Atom::DirectoryCreate { path: p }),
                    Step::bare(Atom::HttpDownload { url: self.from.clone(), to: self.to.clone() }),
                    Step::bare(Atom::FileChmod { path: self.to.clone(), mode: self.chmod }),
                ];
                let ghost base = steps.deep_view();
                assert(base =~= seq![
                    bare(AtomModel::DirectoryCreate { path: p@ }),
                    bare(AtomModel::HttpDownload { url: self.from@, to: self.to@ }),
                    bare(AtomModel::FileChmod { path: self.to@, mode: self.chmod }),
                ]);
                match (&self.owner_user, &self.owner_group) {
                    (Some(u), Some(g)) => {
                        let chown = Step::bare(
                            Atom::FileChown { path: self.to.clone(), owner: u.clone(), group: g.clone() },
                        );
                        let ghost cv = chown.deep_view();
                        steps.push(chown);
                        assert(steps.deep_view() =~= base.push(cv));
                    },
                    _ => {},
                }
                Ok(steps)
            },
        }
    }

    /// Plans the download on this host.
    pub fn plan(&self) -> (r: Result<Vec<Step>, PlanError>)
        ensures
            result_model(r) == download_steps(
                self.from@,
                self.to@,
                self.chmod,
                self.owner_user.deep_view(),
                self.owner_group.deep_view(),
                path_parent(self.to@),
            ),
    {
        let parent = parent_of(self.to.as_str());
        self.plan_with_parent(parent)
    }

    pub fn summarize(&self) -> (r: String)
        ensures
            r@ == "Downloading file "@ + self.from@ + " to "@ + self.to@,
    {
        String::from_str("Downloading file ").concat(self.from.as_str()).concat(" to ").concat(
            self.to.as_str(),
        )
    }
}

impl FileAction for FileDownload {}

/// A download is planned as four steps where both an owning user and an
/// owning group are given (the last one sets them), and as three otherwise.
pub proof fn lemma_download_step_count(
    from: Seq<char>,
    to: Seq<char>,
    chmod: u32,
    user: Option<Seq<char>>,
    group: Option<Seq<char>>,
    parent: Seq<char>,
)
    ensures
        download_steps(from, to, chmod, user, group, Some(parent)) matches Ok(steps) && steps.len() == if user is Some
            && group is Some {
            4int
        } else {
            3int
        },
{
}

/// A copy whose destination has a parent directory is four steps: create
/// the parent, create the file, set its mode, and last put the contents in
/// it: written as they are without a passphrase, else decrypted with it.
pub proof fn lemma_copy_puts_the_contents_in_the_destination(
    dest: Seq<char>,
    parent: Seq<char>,
    chmod: u32,
    passphrase: Option<Seq<char>>,
    contents: Seq<u8>,
)
    ensures
        copy_steps(dest, Some(parent), chmod, passphrase, contents) matches Ok(steps) && {
            &&& steps.len() == 4
            &&& steps[0].atom == AtomModel::DirectoryCreate { path: parent }
            &&& steps[1].atom == AtomModel::FileCreate { path: dest }
            &&& steps[2].atom == AtomModel::FileChmod { path: dest, mode: chmod }
            &&& passphrase is None ==> steps[3].atom == AtomModel::FileSetContents { path: dest, contents }
            &&& passphrase matches Some(pass) ==> steps[3].atom == AtomModel::FileDecrypt {
                encrypted_content: contents,
                path: dest,
                passphrase: pass,
            }
        },
        copy_steps(dest, None, chmod, passphrase, contents) == Err::<Seq<StepModel>, PlanErrorModel>(
            PlanErrorModel::NoParentDirectory { path: dest },
        ),
{
}

/// A download whose destination has a parent directory creates that
/// directory, downloads from its URL to its destination, sets the mode,
/// and, where both an owning user and group are given, sets them last.
pub proof fn lemma_download_fetches_the_url_into_the_destination(
    from: Seq<char>,
    to: Seq<char>,
    chmod: u32,
    user: Option<Seq<char>>,
    group: Option<Seq<char>>,
    parent: Seq<char>,
)
    ensures
        download_steps(from, to, chmod, user, group, Some(parent)) matches Ok(steps) && {
            &&& steps.len() == if user is Some && group is Some { 4int } else { 3int }
            &&& steps[0].atom == AtomModel::DirectoryCreate { path: parent }
            &&& steps[1].atom == AtomModel::HttpDownload { url: from, to }
            &&& steps[2].atom == AtomModel::FileChmod { path: to, mode: chmod }
            &&& (user is Some && group is Some) ==> steps[3].atom == AtomModel::FileChown {
                path: to,
                owner: user->0,
                group: group->0,
            }
        },
        download_steps(from, to, chmod, user, group, None) == Err::<Seq<StepModel>, PlanErrorModel>(
            PlanErrorModel::NoParentDirectory { path: to },
        ),
{
}

} // verus!
