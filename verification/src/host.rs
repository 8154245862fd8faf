//! Queries of the host that planning depends on. Where what they return
//! depends on the machine (its `PATH`, its files, its operating system),
//! nothing is promised of it, and the functions that use them are verified
//! for every value they might return; the path computations that depend on
//! their arguments alone (parent, file name, join, comparison) have their
//! results named.
use normpath::PathExt;
use vstd::prelude::*;

verus! {

/// Calls `which::which`: the path of the executable named `name` found on
/// this machine, if any. Nothing is stated of the result, which depends on
/// the machine's `PATH` and files.
#[verifier::external_body]
pub(crate) fn locate_executable(name: &str) -> Option<String> {
    which::which(name).ok().map(|p| p.display().to_string())
}

} // verus!

verus! {

/// The SHA-256 digest of a text, in the lowercase hexadecimal form that
/// `sha256::digest` returns.
pub uninterp spec fn sha256_digest(text: Seq<char>) -> Seq<char>;

/// Calls `sha256::digest` on the UTF-8 bytes of `text`. Its result is the
/// named digest of `text`, 64 characters long (the hex encoding of the
/// 32-byte hash); which characters those are is not stated.
#[verifier::external_body]
pub(crate) fn sha256_hex(text: &str) -> (r: String)
    ensures
        r@ == sha256_digest(text@),
        r@.len() == 64,
{
    sha256::digest(text)
}

} // verus!

verus! {

/// Calls `os_info::get` and names the type of the running operating system
/// as its `Debug` form writes it (such as `Ubuntu` or `Macos`). Nothing is
/// stated of the result, which depends on the machine.
#[verifier::external_body]
pub(crate) fn current_os_type() -> String {
    format!("{:?}", os_info::get().os_type())
}

} // verus!

verus! {

/// The parent of a path as `std::path::Path::parent` gives it, by the path
/// rules of the platform the library is built for.
pub uninterp spec fn path_parent(path: Seq<char>) -> Option<Seq<char>>;

/// The last component of a path as `std::path::Path::file_name` gives it,
/// by the path rules of the platform the library is built for.
pub uninterp spec fn path_file_name(path: Seq<char>) -> Option<Seq<char>>;

/// The path `std::path::Path::join` makes of `base` and `part`, by the path
/// rules of the platform the library is built for.
pub uninterp spec fn path_join(base: Seq<char>, part: Seq<char>) -> Seq<char>;

/// Whether `std::path::Path` compares the two paths equal (component by
/// component), by the path rules of the platform the library is built for.
pub uninterp spec fn paths_equal(a: Seq<char>, b: Seq<char>) -> bool;

/// Calls `std::path::Path::parent`: the path without its last component,
/// if it has one. The result is the named parent of the path; as std
/// documents, the empty path has none.
#[verifier::external_body]
pub(crate) fn parent_of(path: &str) -> (r: Option<String>)
    ensures
        r.deep_view() == path_parent(path@),
        path@.len() == 0 ==> r is None,
{
    std::path::Path::new(path).parent().map(|p| p.to_string_lossy().into_owned())
}

/// Calls `std::path::Path::file_name`: the last component of the path, if
/// it names a file. The result is the named file name of the path; as std
/// documents, the empty path has none.
#[verifier::external_body]
pub(crate) fn file_name_of(path: &str) -> (r: Option<String>)
    ensures
        r.deep_view() == path_file_name(path@),
        path@.len() == 0 ==> r is None,
{
    std::path::Path::new(path).file_name().map(|n| n.to_string_lossy().into_owned())
}

/// Calls `std::path::Path::join`: `part` appended to `base`. The result is
/// the named join of the two.
#[verifier::external_body]
pub(crate) fn join_path(base: &str, part: &str) -> (r: String)
    ensures
        r@ == path_join(base@, part@),
{
    std::path::Path::new(base).join(part).to_string_lossy().into_owned()
}

/// Calls `std::path::Path::is_dir`: whether a directory is found at the
/// path on this machine. Nothing is stated of the result.
#[verifier::external_body]
pub(crate) fn is_directory(path: &str) -> bool {
    std::path::Path::new(path).is_dir()
}

/// Calls `std::path::Path::is_file`: whether a file is found at the path on
/// this machine. Nothing is stated of the result.
#[verifier::external_body]
pub(crate) fn is_regular_file(path: &str) -> bool {
    std::path::Path::new(path).is_file()
}

/// Calls `normpath::PathExt::normalize`: the normalized form of the path,
/// or `None` where it cannot be normalized. Nothing is stated of the
/// result, which depends on the files on this machine.
#[verifier::external_body]
pub(crate) fn normalize_path(path: &str) -> Option<String> {
    std::path::Path::new(path).normalize().ok().map(|p| p.as_path().to_string_lossy().into_owned())
}

} // verus!

verus! {

/// Calls `std::path::Path::exists`: whether anything is found at the path
/// on this machine. Nothing is stated of the result.
#[verifier::external_body]
pub(crate) fn path_exists(path: &str) -> bool {
    std::path::Path::new(path).exists()
}

/// Compares two paths with `==` on `std::path::Path`, which compares their
/// components. The result is named; equal texts make equal paths.
#[verifier::external_body]
pub(crate) fn same_path(a: &str, b: &str) -> (r: bool)
    ensures
        r == paths_equal(a@, b@),
        a@ == b@ ==> r,
{
    std::path::Path::new(a) == std::path::Path::new(b)
}

/// Calls `dirs_next::config_dir`: the user's configuration directory, if
/// the platform has one. Nothing is stated of the result, which depends on
/// the environment.
#[verifier::external_body]
pub(crate) fn user_config_dir() -> Option<String> {
    dirs_next::config_dir().map(|p| p.to_string_lossy().into_owned())
}

} // verus!

verus! {

/// A text with its ANSI escape sequences taken out, as
/// `strip_ansi_escapes::strip` gives it.
pub uninterp spec fn ansi_stripped(s: Seq<char>) -> Seq<char>;

/// Calls `strip_ansi_escapes::strip` on the text and reads the bytes it
/// returns as UTF-8 (the empty text where they are not); the result is
/// named.
#[verifier::external_body]
pub(crate) fn strip_ansi(s: &str) -> (r: String)
    ensures
        r@ == ansi_stripped(s@),
{
    String::from_utf8(strip_ansi_escapes::strip(s)).unwrap_or_default()
}

} // verus!
