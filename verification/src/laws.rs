//! What holds of every session, whatever the rules.

use crate::candidate::is_candidate_path;
use crate::metadata::has_marker;
use crate::policy::{FilterMode, MatchKind};
use crate::root::path_below;
use crate::session::{is_configured, rule_texts, FilterSession, TemplateConfig};
use crate::walk::{Entry, EntryAccessError};
use vstd::prelude::*;

verus! {

/// With neither include nor exclude rules configured, every file below the
/// project root and outside version-control metadata is kept.
pub proof fn no_rules_keep_every_file(
    session: FilterSession,
    config: TemplateConfig,
    project_dir: Seq<char>,
    entry: Entry,
)
    requires
        session.built_from(config, project_dir),
        config.include_rules is None,
        config.exclude_rules is None,
        !entry.is_dir,
        !has_marker(entry.path@),
        path_below(entry.path@, project_dir) matches Some(relative_path) && is_candidate_path(
            relative_path,
        ),
    ensures
        session.entry_decision(entry) == Some(true),
{
}

/// Where include rules are configured, the exclude rules have no effect:
/// two sessions with the same include rules decide alike over every item,
/// whatever their exclude rules are.
pub proof fn exclude_rules_idle_beside_include_rules(
    first: FilterSession,
    first_config: TemplateConfig,
    second: FilterSession,
    second_config: TemplateConfig,
    project_dir: Seq<char>,
    item: Result<Entry, EntryAccessError>,
)
    requires
        first.built_from(first_config, project_dir),
        second.built_from(second_config, project_dir),
        is_configured(first_config.include_rules),
        rule_texts(first_config.include_rules) == rule_texts(second_config.include_rules),
    ensures
        first.decision(item) == second.decision(item),
{
}

/// In include mode a file that no include rule matches is dropped: what is
/// not selected is denied.
pub proof fn include_mode_denies_by_default(session: FilterSession, relative_path: Seq<char>)
    requires
        session.mode() == FilterMode::IncludeMode,
        session.include_matcher().answer(relative_path, false) == MatchKind::NoMatch,
    ensures
        !session.includes(relative_path),
{
}

/// An entry whose path holds the marker of version-control metadata is
/// kept in no session, also where an include rule matches it.
pub proof fn metadata_is_never_kept(session: FilterSession, entry: Entry)
    requires
        has_marker(entry.path@),
    ensures
        session.entry_decision(entry) != Some(true),
{
}

/// A directory is kept in no session, also where a pattern matches its
/// path.
pub proof fn directories_are_never_kept(session: FilterSession, entry: Entry)
    requires
        entry.is_dir,
    ensures
        session.entry_decision(entry) != Some(true),
{
}

/// The decision is a function of the rules, the root and the item: two
/// sessions built from the same rules at the same root decide alike, so a
/// second run over the same items keeps and drops the same ones.
pub proof fn same_rules_same_decisions(
    first: FilterSession,
    second: FilterSession,
    config: TemplateConfig,
    project_dir: Seq<char>,
    item: Result<Entry, EntryAccessError>,
)
    requires
        first.built_from(config, project_dir),
        second.built_from(config, project_dir),
    ensures
        first.decision(item) == second.decision(item),
{
}

} // verus!
