//! The metadata excluder: a fixed rule that no configuration can override.

use vstd::prelude::*;

verus! {

/// The marker of version-control metadata: the name of the private directory
/// of git.
pub open spec fn marker() -> Seq<char> {
    seq!['.', 'g', 'i', 't']
}

/// The marker stands in `text` at position `at`.
pub open spec fn marker_at(text: Seq<char>, at: int) -> bool {
    &&& 0 <= at
    &&& at + 4 <= text.len()
    &&& text[at] == '.'
    &&& text[at + 1] == 'g'
    &&& text[at + 2] == 'i'
    &&& text[at + 3] == 't'
}

/// The marker occurs somewhere in `text`.
pub open spec fn has_marker(text: Seq<char>) -> bool {
    exists|at: int| marker_at(text, at)
}

/// How many characters at the end of `text` are the beginning of the marker,
/// as a search that reads `text` once has to remember it.
spec fn progress(text: Seq<char>) -> int {
    let n = text.len() as int;
    if n >= 3 && text[n - 3] == '.' && text[n - 2] == 'g' && text[n - 1] == 'i' {
        3
    } else if n >= 2 && text[n - 2] == '.' && text[n - 1] == 'g' {
        2
    } else if n >= 1 && text[n - 1] == '.' {
        1
    } else {
        0
    }
}

/// Whether the string form of a path marks version-control metadata: it
/// contains the marker as a substring. No pattern is involved.
pub fn is_git_metadata(path: &str) -> (found: bool)
    ensures
        found == has_marker(path@),
{
    let mut state: u8 = 0;
    for c in chars: path.chars()
        invariant
            chars.seq() == path@,
            state == progress(path@.take(chars.index())),
            forall|at: int| !marker_at(path@.take(chars.index()), at),
    {
        let ghost seen = chars.index();
        let ghost before = path@.take(seen);
        let ghost after = path@.take(seen + 1);
        assert(after.len() == seen + 1);
        assert(forall|i: int| 0 <= i < seen ==> after[i] == before[i]);
        assert(after[seen] == c);
        if state == 3 && c == 't' {
            assert(marker_at(path@, seen - 3));
            return true;
        }
        assert forall|at: int| !marker_at(after, at) by {
            if marker_at(after, at) {
                if at + 4 <= seen {
                    assert(marker_at(before, at));
                }
            }
        }
        state =
        if c == '.' {
            1
        } else if state == 1 && c == 'g' {
            2
        } else if state == 2 && c == 'i' {
            3
        } else {
            0
        };
    }
    assert(path@.take(path@.len() as int) == path@);
    false
}

} // verus!
