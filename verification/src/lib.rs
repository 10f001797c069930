//! Decides which files of a project tree take part in an operation.
//!
//! A session is built once from two optional lists of gitignore-style
//! pattern lines and a project root. It then decides over each entry that a
//! tree walker yields: directories, version-control metadata and entries
//! that could not be read are dropped, and the include rules or, where none
//! are configured, the exclude rules decide over the rest.
//!
//! The patterns are parsed, compiled and matched by the `ignore` crate; the
//! modules `rules` and `root` hold what is taken for granted about it and
//! about `std::path`. Everything else is proved.

pub mod candidate;
pub mod compiled;
pub mod laws;
pub mod metadata;
pub mod policy;
pub mod root;
pub mod rules;
pub mod session;
pub mod walk;
