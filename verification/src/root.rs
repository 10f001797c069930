//! Paths relative to the project root: the boundary to `std::path`.
//!
//! Nothing in this file is proved: it states what the rest of the library
//! takes for granted about `Path::strip_prefix`.

use std::path::Path;
use vstd::prelude::*;

verus! {

/// What `Path::strip_prefix` returns for `path` and `base`: the path that,
/// joined onto `base`, yields `path`, or `None` where `base` is not a prefix
/// of `path`. Prefixes are compared component by component.
pub uninterp spec fn path_below(path: Seq<char>, base: Seq<char>) -> Option<Seq<char>>;

/// Calls `Path::strip_prefix`: the rest of `path` below `base`, or `None`
/// where `path` does not begin with `base`.
#[verifier::external_body]
pub(crate) fn relative_to(path: &str, base: &str) -> (relative: Option<String>)
    ensures
        relative is Some <==> path_below(path@, base@) is Some,
        relative matches Some(rest) ==> path_below(path@, base@) == Some(rest@),
{
    match Path::new(path).strip_prefix(base) {
        Ok(rest) => Some(rest.to_string_lossy().into_owned()),
        Err(_) => None,
    }
}

} // verus!
