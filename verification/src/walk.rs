//! What the tree walker yields, as plain values.

use vstd::prelude::*;

verus! {

/// One entry of the project tree, as the walker found it.
pub struct Entry {
    /// The path of the entry in its string form, as the walker gives it:
    /// it begins with the project root.
    pub path: String,
    /// Whether the entry is a directory.
    pub is_dir: bool,
}

/// An entry that the walker could not read.
pub struct EntryAccessError {
    /// The path at which the walk failed, where it is known.
    pub path: Option<String>,
    /// The words of the underlying failure.
    pub message: String,
}

/// Whether an entry is a directory. Directories are walked into and never
/// kept.
pub fn is_dir(entry: &Entry) -> (dir: bool)
    ensures
        dir == entry.is_dir,
{
    entry.is_dir
}

} // verus!
