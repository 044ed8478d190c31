//! File-system paths held as strings, combined by the standard library's
//! `std::path` rules of the platform the crate is built for.

use vstd::prelude::*;

verus! {

/// What `Path::join` gives for `base` and `rest` (`rest` itself when it is absolute).
pub uninterp spec fn path_joined(base: Seq<char>, rest: Seq<char>) -> Seq<char>;

/// What `Path::parent` gives for `path`: `None` for a root or an empty path.
pub uninterp spec fn path_parent(path: Seq<char>) -> Option<Seq<char>>;

/// What `Path::is_relative` answers for `path`.
pub uninterp spec fn path_is_relative(path: Seq<char>) -> bool;

/// What `Path::file_name` gives for `path`: its last normal component, if any.
pub uninterp spec fn path_file_name(path: Seq<char>) -> Option<Seq<char>>;

/// Calls `Path::join`; the result is `path_joined(base, rest)`. Paths built
/// from `str`s are valid UTF-8, so the conversion back to a `String` keeps
/// every character.
#[verifier::external_body]
pub(crate) fn join(base: &str, rest: &str) -> (res: String)
    ensures
        res@ == path_joined(base@, rest@),
{
    std::path::Path::new(base).join(rest).to_string_lossy().into_owned()
}

/// Calls `Path::parent`; the result is `path_parent(path)`.
#[verifier::external_body]
pub(crate) fn parent(path: &str) -> (res: Option<String>)
    ensures
        res matches Some(p) ==> path_parent(path@) == Some(p@),
        res is None ==> path_parent(path@) is None,
{
    std::path::Path::new(path).parent().map(|p| p.to_string_lossy().into_owned())
}

/// Calls `Path::is_relative`; the answer is `path_is_relative(path)`.
#[verifier::external_body]
pub(crate) fn is_relative(path: &str) -> (b: bool)
    ensures
        b == path_is_relative(path@),
{
    std::path::Path::new(path).is_relative()
}

/// Calls `Path::file_name`; the result is `path_file_name(path)`.
#[verifier::external_body]
pub(crate) fn file_name(path: &str) -> (res: Option<String>)
    ensures
        res matches Some(n) ==> path_file_name(path@) == Some(n@),
        res is None ==> path_file_name(path@) is None,
{
    std::path::Path::new(path).file_name().map(|n| n.to_string_lossy().into_owned())
}

} // verus!
