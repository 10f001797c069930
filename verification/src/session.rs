//! The filtering session: the two compiled rule sets and the mode, built
//! once and then asked for each path.

use crate::candidate::{check_candidate_path, is_candidate_path};
use crate::compiled::{compiles, globs_of, texts, CompiledMatcher, PatternSyntaxError};
use crate::metadata::{has_marker, is_git_metadata};
use crate::policy::{decide, filter_mode, keep_or_drop, mode_for, FilterMode};
use crate::root::{path_below, relative_to};
use crate::rules::kept_root;
use crate::walk::{Entry, EntryAccessError};
use vstd::prelude::*;

verus! {

/// The rules of a template: two optional lists of pattern lines. A list
/// that is absent behaves as an empty one: there are no rules of that kind.
pub struct TemplateConfig {
    /// The files to keep. Where any are given, the exclude rules are not
    /// used.
    pub include_rules: Option<Vec<String>>,
    /// The files to leave out.
    pub exclude_rules: Option<Vec<String>>,
}

/// The pattern lines of an optional rule set.
pub open spec fn rule_texts(rules: Option<Vec<String>>) -> Seq<Seq<char>> {
    match rules {
        Some(lines) => texts(lines@),
        None => Seq::empty(),
    }
}

/// Whether rules of a kind are configured: the list is there and holds at
/// least one line.
pub open spec fn is_configured(rules: Option<Vec<String>>) -> bool {
    rules matches Some(lines) && lines@.len() > 0
}

/// Computes [`is_configured`].
pub fn has_rules(rules: &Option<Vec<String>>) -> (configured: bool)
    ensures
        configured == is_configured(*rules),
{
    match rules {
        Some(lines) => lines.len() > 0,
        None => false,
    }
}

/// A filtering session. It owns the two compiled rule sets and the mode,
/// and decides for each entry afresh: it keeps no state between queries.
pub struct FilterSession {
    project_dir: String,
    mode: FilterMode,
    included: CompiledMatcher,
    excluded: CompiledMatcher,
}

impl FilterSession {
    /// The project root that the walk starts from.
    pub closed spec fn project_dir(&self) -> Seq<char> {
        self.project_dir@
    }

    /// The mode of the session.
    pub closed spec fn mode(&self) -> FilterMode {
        self.mode
    }

    /// The compiled include rules.
    pub closed spec fn include_matcher(&self) -> CompiledMatcher {
        self.included
    }

    /// The compiled exclude rules.
    pub closed spec fn exclude_matcher(&self) -> CompiledMatcher {
        self.excluded
    }

    /// The rule set that decides in this session.
    pub open spec fn active_matcher(&self) -> CompiledMatcher {
        match self.mode() {
            FilterMode::IncludeMode => self.include_matcher(),
            FilterMode::ExcludeMode => self.exclude_matcher(),
        }
    }

    /// The session is the one that `config` and `project_dir` describe.
    pub open spec fn built_from(&self, config: TemplateConfig, project_dir: Seq<char>) -> bool {
        &&& self.project_dir() == project_dir
        &&& self.mode() == mode_for(is_configured(config.include_rules))
        &&& self.include_matcher().root() == kept_root(project_dir)
        &&& self.include_matcher().globs() == globs_of(rule_texts(config.include_rules))
        &&& self.exclude_matcher().root() == kept_root(project_dir)
        &&& self.exclude_matcher().globs() == globs_of(rule_texts(config.exclude_rules))
    }

    /// Whether the rules keep a file at `relative_path`.
    pub open spec fn includes(&self, relative_path: Seq<char>) -> bool {
        decide(self.mode(), self.active_matcher().answer(relative_path, false))
    }

    /// Whether the rules are asked about an entry at all: a directory and
    /// an entry of version-control metadata are dropped before that.
    pub open spec fn consults_rules(entry: Entry) -> bool {
        !entry.is_dir && !has_marker(entry.path@)
    }

    /// What the session decides over an entry whose path relative to the
    /// project root is `relative_path`: it keeps a file, outside
    /// version-control metadata, that the rules keep. `None` where the
    /// rules would have to be asked about a path that is not a candidate
    /// path.
    pub open spec fn decision_at(&self, entry: Entry, relative_path: Seq<char>) -> Option<bool> {
        if !Self::consults_rules(entry) {
            Some(false)
        } else if is_candidate_path(relative_path) {
            Some(self.includes(relative_path))
        } else {
            None
        }
    }

    /// What the session decides over an entry: `None` where the entry does
    /// not lie below the project root, else the decision at its path
    /// relative to that root.
    pub open spec fn entry_decision(&self, entry: Entry) -> Option<bool> {
        match path_below(entry.path@, self.project_dir()) {
            Some(relative_path) => self.decision_at(entry, relative_path),
            None => None,
        }
    }

    /// What the session decides over an item of the walker's stream: an
    /// entry that could not be read is dropped.
    pub open spec fn decision(&self, item: Result<Entry, EntryAccessError>) -> Option<bool> {
        match item {
            Ok(entry) => self.entry_decision(entry),
            Err(_) => Some(false),
        }
    }

    /// The mode of the session.
    pub fn current_mode(&self) -> (mode: FilterMode)
        ensures
            mode == self.mode(),
    {
        self.mode
    }

    /// Decides by the rules alone whether a file at `relative_path` is
    /// kept.
    pub fn should_include(&self, relative_path: &str) -> (keep: bool)
        requires
            is_candidate_path(relative_path@),
        ensures
            keep == self.includes(relative_path@),
    {
        match self.mode {
            FilterMode::ExcludeMode => keep_or_drop(
                FilterMode::ExcludeMode,
                self.excluded.matched(relative_path),
            ),
            FilterMode::IncludeMode => keep_or_drop(
                FilterMode::IncludeMode,
                self.included.matched(relative_path),
            ),
        }
    }

    /// Decides over an entry, given its path relative to the project root.
    pub fn keeps_at(&self, entry: &Entry, relative_path: &str) -> (keep: Option<bool>)
        ensures
            keep == self.decision_at(*entry, relative_path@),
    {
        if entry.is_dir || is_git_metadata(entry.path.as_str()) {
            Some(false)
        } else if check_candidate_path(relative_path) {
            Some(self.should_include(relative_path))
        } else {
            None
        }
    }

    /// Decides over an entry: takes the project root from the front of its
    /// path, then asks [`FilterSession::keeps_at`].
    pub fn keeps_entry(&self, entry: &Entry) -> (keep: Option<bool>)
        ensures
            keep == self.entry_decision(*entry),
    {
        match relative_to(entry.path.as_str(), self.project_dir.as_str()) {
            Some(relative_path) => self.keeps_at(entry, relative_path.as_str()),
            None => None,
        }
    }

    /// The predicate for the walker's stream: whether an item is kept.
    pub fn keeps(&self, item: &Result<Entry, EntryAccessError>) -> (keep: Option<bool>)
        ensures
            keep == self.decision(*item),
    {
        match item {
            Ok(entry) => self.keeps_entry(entry),
            Err(_) => Some(false),
        }
    }
}

/// Compiles one optional rule set: an absent one as an empty one.
fn compile_optional(project_dir: &str, rules: &Option<Vec<String>>) -> (compiled: Result<
    CompiledMatcher,
    PatternSyntaxError,
>)
    ensures
        compiled is Ok <==> compiles(rule_texts(*rules)),
        compiled matches Ok(matcher) ==> matcher.root() == kept_root(project_dir@)
            && matcher.globs() == globs_of(rule_texts(*rules)),
        compiled matches Err(error) ==> error.describes(rule_texts(*rules)),
{
    match rules {
        Some(lines) => CompiledMatcher::compile(project_dir, lines),
        None => {
            let lines: Vec<String> = Vec::new();
            assert(texts(lines@) == Seq::<Seq<char>>::empty());
            CompiledMatcher::compile(project_dir, &lines)
        },
    }
}

/// Builds the session for a template: compiles the include rules, then the
/// exclude rules, both anchored at `project_dir`.
///
/// Both rule sets are compiled whichever of them the mode will use, so a
/// malformed line in either fails the session before any entry is looked
/// at. Where both fail, the error is that of the include rules.
pub fn create_matcher(template_config: &TemplateConfig, project_dir: &str) -> (session: Result<
    FilterSession,
    PatternSyntaxError,
>)
    ensures
        session is Ok <==> compiles(rule_texts(template_config.include_rules)) && compiles(
            rule_texts(template_config.exclude_rules),
        ),
        session matches Ok(built) ==> built.built_from(*template_config, project_dir@),
        session matches Err(error) ==> error.describes(
            if compiles(rule_texts(template_config.include_rules)) {
                rule_texts(template_config.exclude_rules)
            } else {
                rule_texts(template_config.include_rules)
            },
        ),
{
    let included = match compile_optional(project_dir, &template_config.include_rules) {
        Ok(matcher) => matcher,
        Err(error) => {
            return Err(error);
        },
    };
    let excluded = match compile_optional(project_dir, &template_config.exclude_rules) {
        Ok(matcher) => matcher,
        Err(error) => {
            return Err(error);
        },
    };
    let mode = filter_mode(has_rules(&template_config.include_rules));
    Ok(FilterSession { project_dir: project_dir.to_owned(), mode, included, excluded })
}

/// Builds the session for a template without rules: it keeps every file
/// outside version-control metadata. It never fails.
pub fn create_default_matcher(project_dir: &str) -> (session: Result<
    FilterSession,
    PatternSyntaxError,
>)
    ensures
        session matches Ok(built) && built.built_from(
            (TemplateConfig { include_rules: None, exclude_rules: None }),
            project_dir@,
        ),
{
    let config = TemplateConfig { include_rules: None, exclude_rules: None };
    create_matcher(&config, project_dir)
}

} // verus!
