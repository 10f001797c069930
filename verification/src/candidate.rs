//! Candidate paths: the unit of decision.
//!
//! A candidate path is relative to the project root and written with `/`
//! between its components. Absolute paths are never held against patterns.

use vstd::prelude::*;

verus! {

/// `text` begins with a separator, so it names a place from the root of the
/// file system.
pub open spec fn is_rooted(text: Seq<char>) -> bool {
    text.len() > 0 && text[0] == '/'
}

/// Two separators follow each other in `text` at position `at`: an empty
/// component.
pub open spec fn empty_component_at(text: Seq<char>, at: int) -> bool {
    &&& 0 <= at
    &&& at + 2 <= text.len()
    &&& text[at] == '/'
    &&& text[at + 1] == '/'
}

/// `text` is a path in normal form relative to some root: it is not rooted
/// and none of its components is empty. The empty path, which stands for the
/// root itself, is one.
pub open spec fn is_candidate_path(text: Seq<char>) -> bool {
    &&& !is_rooted(text)
    &&& forall|at: int| !empty_component_at(text, at)
}

/// Computes [`is_candidate_path`].
pub fn check_candidate_path(path: &str) -> (ok: bool)
    ensures
        ok == is_candidate_path(path@),
{
    let mut first = true;
    let mut after_separator = false;
    for c in chars: path.chars()
        invariant
            chars.seq() == path@,
            first == (chars.index() == 0),
            !first ==> !is_rooted(path@),
            after_separator == (chars.index() > 0 && path@[chars.index() - 1] == '/'),
            forall|at: int| at + 2 <= chars.index() ==> !empty_component_at(path@, at),
    {
        if c == '/' {
            if first {
                assert(is_rooted(path@));
                return false;
            }
            if after_separator {
                assert(empty_component_at(path@, chars.index() - 1));
                return false;
            }
        }
        after_separator = c == '/';
        first = false;
    }
    true
}

} // verus!
