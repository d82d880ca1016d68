//! Host paths, held as strings, and the `std::path` operations the
//! adapters rely on.

use std::path::Path;
use vstd::prelude::*;

verus! {

/// Whether `std::path::Path::is_absolute` holds of the path.
pub uninterp spec fn path_is_absolute(path: Seq<char>) -> bool;

/// What `std::path::Path::join` gives for `base` and `path`.
pub uninterp spec fn path_join(base: Seq<char>, path: Seq<char>) -> Seq<char>;

/// Whether `std::path::Path::starts_with` holds: `base` is a prefix of
/// `path` in whole path components.
pub uninterp spec fn path_starts_with(path: Seq<char>, base: Seq<char>) -> bool;

/// Calls `std::path::Path::is_absolute`. Trusted: the answer depends on the
/// path alone.
#[verifier::external_body]
pub(crate) fn is_absolute(path: &str) -> (b: bool)
    ensures
        b == path_is_absolute(path@),
{
    Path::new(path).is_absolute()
}

/// Calls `std::path::Path::join`. Trusted: the result depends on the two
/// paths alone; joining two UTF-8 paths gives a UTF-8 path, so the lossy
/// conversion back to a string loses nothing.
#[verifier::external_body]
pub(crate) fn join(base: &str, path: &str) -> (joined: String)
    ensures
        joined@ == path_join(base@, path@),
{
    Path::new(base).join(path).to_string_lossy().into_owned()
}

/// Calls `std::path::Path::starts_with`. Trusted: the answer depends on the
/// two paths alone.
#[verifier::external_body]
pub(crate) fn starts_with(path: &str, base: &str) -> (b: bool)
    ensures
        b == path_starts_with(path@, base@),
{
    Path::new(path).starts_with(base)
}

} // verus!
