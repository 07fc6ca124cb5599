//! File-system paths as text. The rules of path syntax are those of the
//! standard library for the platform the crate is built for; they are named
//! here and taken on trust, and nothing in this module touches the disk.

use crate::text::opt_text;
use vstd::prelude::*;

verus! {

/// What `std::path::Path::parent` gives for the path `p`.
pub uninterp spec fn path_parent(p: Seq<char>) -> Option<Seq<char>>;

/// What `std::path::Path::join` gives for `base` and `rel`.
pub uninterp spec fn path_join(base: Seq<char>, rel: Seq<char>) -> Seq<char>;

/// What `std::path::Path::is_absolute` gives for the path `p`.
pub uninterp spec fn path_is_absolute(p: Seq<char>) -> bool;

/// What `std::path::Path::file_name` gives for the path `p`.
pub uninterp spec fn path_file_name(p: Seq<char>) -> Option<Seq<char>>;

/// What `std::path::Path::starts_with` gives for the path `p` and `base`.
pub uninterp spec fn path_starts_with(p: Seq<char>, base: Seq<char>) -> bool;

/// What `std::path::Path::strip_prefix` gives for the path `p` and `base`,
/// where it succeeds.
pub uninterp spec fn path_strip_prefix(p: Seq<char>, base: Seq<char>) -> Option<Seq<char>>;

/// Whether `std::path::Path` holds `a` and `b` to be equal.
pub uninterp spec fn path_same(a: Seq<char>, b: Seq<char>) -> bool;

/// Calls `std::path::Path::parent`: the path without its final component,
/// if it has one. Trusted: the result is the named one, and, being the path
/// with a component taken off its end, it is shorter than the path.
#[verifier::external_body]
pub(crate) fn parent(p: &str) -> (r: Option<String>)
    ensures
        opt_text(r) == path_parent(p@),
        r is Some ==> r.unwrap()@.len() < p@.len(),
{
    match std::path::Path::new(p).parent() {
        Some(q) => Some(q.to_string_lossy().into_owned()),
        None => None,
    }
}

/// Calls `std::path::Path::join`. Trusted: the result is the named one.
#[verifier::external_body]
pub(crate) fn join(base: &str, rel: &str) -> (r: String)
    ensures
        r@ == path_join(base@, rel@),
{
    std::path::Path::new(base).join(rel).to_string_lossy().into_owned()
}

/// Calls `std::path::Path::is_absolute`. Trusted: the result is the named
/// one.
#[verifier::external_body]
pub(crate) fn is_absolute(p: &str) -> (r: bool)
    ensures
        r == path_is_absolute(p@),
{
    std::path::Path::new(p).is_absolute()
}

/// Calls `std::path::Path::file_name`: the final component of the path, if
/// it is a normal one. Trusted: the result is the named one.
#[verifier::external_body]
pub(crate) fn file_name(p: &str) -> (r: Option<String>)
    ensures
        opt_text(r) == path_file_name(p@),
{
    match std::path::Path::new(p).file_name() {
        Some(name) => Some(name.to_string_lossy().into_owned()),
        None => None,
    }
}

/// Calls `std::path::Path::starts_with`: whether `base` is a prefix of `p`,
/// taken by whole components. Trusted: the result is the named one.
#[verifier::external_body]
pub(crate) fn starts_with(p: &str, base: &str) -> (r: bool)
    ensures
        r == path_starts_with(p@, base@),
{
    std::path::Path::new(p).starts_with(base)
}

/// Calls `std::path::Path::strip_prefix`: the path without the prefix
/// `base`, or nothing where `base` is no prefix of it. Trusted: the result
/// is the named one.
#[verifier::external_body]
pub(crate) fn strip_prefix(p: &str, base: &str) -> (r: Option<String>)
    ensures
        opt_text(r) == path_strip_prefix(p@, base@),
{
    match std::path::Path::new(p).strip_prefix(base) {
        Ok(rest) => Some(rest.to_string_lossy().into_owned()),
        Err(_) => None,
    }
}

/// Calls `==` of `std::path::Path`: whether two paths are made of the same
/// components, however each is spelled. Trusted: the result is the named
/// one.
#[verifier::external_body]
pub(crate) fn same_path(a: &str, b: &str) -> (r: bool)
    ensures
        r == path_same(a@, b@),
{
    std::path::Path::new(a) == std::path::Path::new(b)
}

} // verus!
