//! The rule compiler: the boundary to the `ignore` crate.
//!
//! Pattern lines are parsed, compiled and matched by `ignore::gitignore`.
//! Nothing in this file is proved: each item states what the rest of the
//! library takes for granted about that crate.

use crate::candidate::is_candidate_path;
use crate::policy::MatchKind;
use ignore::gitignore::{Gitignore, GitignoreBuilder};
use ignore::Match;
use vstd::prelude::*;

verus! {

/// `ignore::gitignore::GitignoreBuilder`: a rule set under construction.
#[verifier::external_type_specification]
#[verifier::external_body]
pub struct ExGitignoreBuilder(ignore::gitignore::GitignoreBuilder);

/// `ignore::gitignore::Gitignore`: a compiled rule set.
#[verifier::external_type_specification]
#[verifier::external_body]
pub struct ExGitignore(ignore::gitignore::Gitignore);

/// `ignore::Error`: why a pattern line or a rule set was refused.
#[verifier::external_type_specification]
#[verifier::external_body]
pub struct ExIgnoreError(ignore::Error);

/// What `GitignoreBuilder::add_line` makes of one line.
pub enum LineReading {
    /// The line cannot be parsed as a glob: the call fails.
    Malformed,
    /// A comment or a blank line: the call succeeds and adds nothing.
    Silent,
    /// The line yields one glob, kept under the given text (the line
    /// without the white space that the crate trims from its end).
    Glob(Seq<char>),
}

/// The root directory that a builder holds.
pub uninterp spec fn builder_root(builder: GitignoreBuilder) -> Seq<char>;

/// The globs that a builder holds, in the order in which they were added,
/// each by its text.
pub uninterp spec fn builder_globs(builder: GitignoreBuilder) -> Seq<Seq<char>>;

/// The root directory that a compiled rule set holds.
pub uninterp spec fn matcher_root(matcher: Gitignore) -> Seq<char>;

/// The globs that a compiled rule set holds, in order, each by its text.
pub uninterp spec fn matcher_globs(matcher: Gitignore) -> Seq<Seq<char>>;

/// The root that `GitignoreBuilder::new` keeps for a directory: the
/// directory without a leading `./`.
pub uninterp spec fn kept_root(dir: Seq<char>) -> Seq<char>;

/// How `GitignoreBuilder::add_line`, with the options that
/// `GitignoreBuilder::new` sets, reads a line.
pub uninterp spec fn line_reading(line: Seq<char>) -> LineReading;

/// Whether `GitignoreBuilder::build` can compile a set of globs that is not
/// empty into one matcher.
pub uninterp spec fn set_compiles(globs: Seq<Seq<char>>) -> bool;

/// What `Gitignore::matched_path_or_any_parents` answers for a path, for a
/// rule set that holds at least one glob.
pub uninterp spec fn glob_verdict(
    root: Seq<char>,
    globs: Seq<Seq<char>>,
    path: Seq<char>,
    is_dir: bool,
) -> MatchKind;

/// The globs that one line adds to a builder: one or none.
pub open spec fn globs_of_line(line: Seq<char>) -> Seq<Seq<char>> {
    match line_reading(line) {
        LineReading::Glob(text) => seq![text],
        _ => Seq::empty(),
    }
}

/// Whether a set of globs builds: the empty set always does.
pub open spec fn set_builds(globs: Seq<Seq<char>>) -> bool {
    globs.len() == 0 || set_compiles(globs)
}

/// The answer of a rule set for a path: a rule set without globs matches
/// nothing.
pub open spec fn verdict(
    root: Seq<char>,
    globs: Seq<Seq<char>>,
    path: Seq<char>,
    is_dir: bool,
) -> MatchKind {
    if globs.len() == 0 {
        MatchKind::NoMatch
    } else {
        glob_verdict(root, globs, path, is_dir)
    }
}

/// Calls `GitignoreBuilder::new`. The new builder holds no glob, and as its
/// root what the crate keeps of `dir`.
#[verifier::external_body]
pub(crate) fn builder_new(dir: &str) -> (builder: GitignoreBuilder)
    ensures
        builder_root(builder) == kept_root(dir@),
        builder_globs(builder) == Seq::<Seq<char>>::empty(),
{
    GitignoreBuilder::new(dir)
}

/// Calls `GitignoreBuilder::add_line` for a line that comes from no file.
/// The call fails exactly on a malformed line. It appends the glob of the
/// line, if the line yields one, and changes nothing else: after a failure
/// the builder is as it was.
#[verifier::external_body]
pub(crate) fn builder_add_line(builder: &mut GitignoreBuilder, line: &str) -> (added: Result<
    (),
    ignore::Error,
>)
    ensures
        added is Err <==> line_reading(line@) is Malformed,
        builder_root(*final(builder)) == builder_root(*old(builder)),
        builder_globs(*final(builder)) == builder_globs(*old(builder)) + globs_of_line(line@),
{
    match builder.add_line(None, line) {
        Ok(_) => Ok(()),
        Err(error) => Err(error),
    }
}

/// Calls `GitignoreBuilder::build`. Whether it succeeds depends on the globs
/// alone, and a builder without globs always builds. The matcher holds the
/// root and the globs of the builder.
#[verifier::external_body]
pub(crate) fn builder_build(builder: &GitignoreBuilder) -> (built: Result<Gitignore, ignore::Error>)
    ensures
        built is Ok <==> builder_globs(*builder).len() == 0 || set_compiles(
            builder_globs(*builder),
        ),
        built matches Ok(matcher) ==> matcher_root(matcher) == builder_root(*builder)
            && matcher_globs(matcher) == builder_globs(*builder),
{
    builder.build()
}

/// Calls `Gitignore::matched_path_or_any_parents` and tells which kind of
/// match came back. The answer depends on the root and the globs of the
/// matcher, on the path and on `is_dir`, and is `NoMatch` where the matcher
/// holds no glob. The crate panics on a path that is rooted after it has
/// taken the matcher's root from its front; a candidate path never is.
#[verifier::external_body]
pub(crate) fn matcher_answer(matcher: &Gitignore, path: &str, is_dir: bool) -> (answer: MatchKind)
    requires
        is_candidate_path(path@),
    ensures
        matcher_globs(*matcher).len() == 0 ==> answer == MatchKind::NoMatch,
        matcher_globs(*matcher).len() > 0 ==> answer == glob_verdict(
            matcher_root(*matcher),
            matcher_globs(*matcher),
            path@,
            is_dir,
        ),
{
    match matcher.matched_path_or_any_parents(path, is_dir) {
        Match::None => MatchKind::NoMatch,
        Match::Ignore(_) => MatchKind::IgnoreMatch,
        Match::Whitelist(_) => MatchKind::WhitelistMatch,
    }
}

/// Calls `to_string` on an `ignore::Error`: the crate's own words for the
/// failure. Nothing is claimed of them.
#[verifier::external_body]
pub(crate) fn error_text(error: &ignore::Error) -> (text: String) {
    error.to_string()
}

} // verus!
