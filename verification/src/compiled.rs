//! Compiled rule sets: from pattern lines to a matcher that answers for
//! paths.

use crate::candidate::{check_candidate_path, is_candidate_path};
use crate::policy::MatchKind;
use crate::rules::{
    builder_add_line, builder_build, builder_globs, builder_new, builder_root, error_text,
    globs_of_line, kept_root, line_reading, matcher_answer, matcher_globs, matcher_root,
    set_builds, verdict, LineReading,
};
use ignore::gitignore::Gitignore;
use vstd::prelude::*;

verus! {

/// The lines of a rule set as texts.
pub open spec fn texts(lines: Seq<String>) -> Seq<Seq<char>> {
    Seq::new(lines.len(), |i: int| lines[i]@)
}

/// The globs that a list of pattern lines yields, in the order of the lines.
/// Comments and blank lines yield none.
pub open spec fn globs_of(lines: Seq<Seq<char>>) -> Seq<Seq<char>>
    decreases lines.len(),
{
    if lines.len() == 0 {
        Seq::empty()
    } else {
        globs_of(lines.drop_last()) + globs_of_line(lines.last())
    }
}

/// Line `at` of `lines` is not valid pattern syntax.
pub open spec fn malformed_at(lines: Seq<Seq<char>>, at: int) -> bool {
    0 <= at < lines.len() && line_reading(lines[at]) is Malformed
}

/// Every line of `lines` is valid pattern syntax.
pub open spec fn all_parse(lines: Seq<Seq<char>>) -> bool {
    forall|at: int| !malformed_at(lines, at)
}

/// The rule set compiles: every line parses and the globs build into one
/// matcher.
pub open spec fn compiles(lines: Seq<Seq<char>>) -> bool {
    all_parse(lines) && set_builds(globs_of(lines))
}

/// A pattern line, or a rule set as a whole, that could not be compiled.
pub struct PatternSyntaxError {
    /// The position of the first line that is not valid pattern syntax, or
    /// `None` where every line parses and the set as a whole does not build.
    pub line: Option<usize>,
    /// The words of the pattern library for the failure.
    pub message: String,
}

impl PatternSyntaxError {
    /// The error says truly why `lines` does not compile.
    pub open spec fn describes(&self, lines: Seq<Seq<char>>) -> bool {
        match self.line {
            Some(at) => malformed_at(lines, at as int) && forall|before: int|
                before < at ==> !malformed_at(lines, before),
            None => all_parse(lines) && !set_builds(globs_of(lines)),
        }
    }
}

/// The compiled form of a rule set, rooted at a base directory. It is built
/// once and never changes.
pub struct CompiledMatcher {
    inner: Gitignore,
}

impl CompiledMatcher {
    /// The root at which the rules are anchored.
    pub closed spec fn root(&self) -> Seq<char> {
        matcher_root(self.inner)
    }

    /// The globs of the rule set, in order.
    pub closed spec fn globs(&self) -> Seq<Seq<char>> {
        matcher_globs(self.inner)
    }

    /// The answer for a path and its parents.
    pub open spec fn answer(&self, path: Seq<char>, is_dir: bool) -> MatchKind {
        verdict(self.root(), self.globs(), path, is_dir)
    }

    /// Compiles the pattern lines of a rule set, anchored at `base_dir`.
    ///
    /// Every line is parsed before a matcher is returned: the first line
    /// that is not valid pattern syntax fails the whole set.
    pub fn compile(base_dir: &str, lines: &Vec<String>) -> (compiled: Result<
        CompiledMatcher,
        PatternSyntaxError,
    >)
        ensures
            compiled is Ok <==> compiles(texts(lines@)),
            compiled matches Ok(matcher) ==> matcher.root() == kept_root(base_dir@)
                && matcher.globs() == globs_of(texts(lines@)),
            compiled matches Err(error) ==> error.describes(texts(lines@)),
    {
        let ghost all = texts(lines@);
        let mut builder = builder_new(base_dir);
        let mut at: usize = 0;
        assert(all.take(0) == Seq::<Seq<char>>::empty());
        while at < lines.len()
            invariant
                all == texts(lines@),
                at <= lines.len(),
                builder_root(builder) == kept_root(base_dir@),
                builder_globs(builder) == globs_of(all.take(at as int)),
                forall|before: int| before < at ==> !malformed_at(all, before),
            decreases lines.len() - at,
        {
            proof {
                let upto = all.take(at as int + 1);
                assert(upto.drop_last() == all.take(at as int));
                assert(upto.last() == lines@[at as int]@);
            }
            match builder_add_line(&mut builder, lines[at].as_str()) {
                Ok(_) => {},
                Err(refused) => {
                    let message = error_text(&refused);
                    assert(malformed_at(all, at as int));
                    return Err(PatternSyntaxError { line: Some(at), message });
                },
            }
            assert(!malformed_at(all, at as int));
            at = at + 1;
        }
        assert(all.take(at as int) == all);
        match builder_build(&builder) {
            Ok(inner) => Ok(CompiledMatcher { inner }),
            Err(refused) => {
                let message = error_text(&refused);
                Err(PatternSyntaxError { line: None, message })
            },
        }
    }

    /// Asks the rule set about a file at `path` and about the directories
    /// above it, up to the root.
    pub fn matched(&self, path: &str) -> (kind: MatchKind)
        requires
            is_candidate_path(path@),
        ensures
            kind == self.answer(path@, false),
    {
        matcher_answer(&self.inner, path, false)
    }

    /// As [`CompiledMatcher::matched`], for any text: a path that is not a
    /// candidate path is held against no pattern.
    pub fn try_matched(&self, path: &str) -> (kind: Option<MatchKind>)
        ensures
            is_candidate_path(path@) ==> kind == Some(self.answer(path@, false)),
            !is_candidate_path(path@) ==> kind is None,
    {
        if check_candidate_path(path) {
            Some(self.matched(path))
        } else {
            None
        }
    }
}

} // verus!
