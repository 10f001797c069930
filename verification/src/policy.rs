//! The inclusion policy: how the answer of a rule set decides over a path.

use vstd::prelude::*;

verus! {

/// What a compiled rule set answers for one path.
#[derive(Clone, Copy, Debug, PartialEq, Eq, Structural)]
pub enum MatchKind {
    /// No rule matches the path or any of its parents.
    NoMatch,
    /// The rule of highest precedence that matches is a plain pattern.
    IgnoreMatch,
    /// The rule of highest precedence that matches is a negated pattern.
    WhitelistMatch,
}

/// Which of the two rule sets decides. The two are mutually exclusive.
#[derive(Clone, Copy, Debug, PartialEq, Eq, Structural)]
pub enum FilterMode {
    /// Only paths that the include rules select are kept.
    IncludeMode,
    /// Every path is kept unless the exclude rules remove it.
    ExcludeMode,
}

/// The mode of a session: include rules, where any are configured, disable
/// the exclude rules entirely.
pub open spec fn mode_for(include_configured: bool) -> FilterMode {
    if include_configured {
        FilterMode::IncludeMode
    } else {
        FilterMode::ExcludeMode
    }
}

/// Whether a path is kept, given the answer of the rule set that is active
/// in `mode`.
///
/// In exclude mode a plain match removes the path and a negated match brings
/// it back. In include mode a plain match selects the path, a negated match
/// takes it out of the selection, and a path that nothing matches is denied.
pub open spec fn decide(mode: FilterMode, answer: MatchKind) -> bool {
    match mode {
        FilterMode::ExcludeMode => answer != MatchKind::IgnoreMatch,
        FilterMode::IncludeMode => answer == MatchKind::IgnoreMatch,
    }
}

/// Computes [`mode_for`].
pub fn filter_mode(include_configured: bool) -> (mode: FilterMode)
    ensures
        mode == mode_for(include_configured),
{
    if include_configured {
        FilterMode::IncludeMode
    } else {
        FilterMode::ExcludeMode
    }
}

/// Computes [`decide`].
pub fn keep_or_drop(mode: FilterMode, answer: MatchKind) -> (keep: bool)
    ensures
        keep == decide(mode, answer),
{
    match mode {
        FilterMode::ExcludeMode => match answer {
            MatchKind::NoMatch => true,
            MatchKind::IgnoreMatch => false,
            MatchKind::WhitelistMatch => true,
        },
        FilterMode::IncludeMode => match answer {
            MatchKind::NoMatch => false,
            MatchKind::IgnoreMatch => true,
            MatchKind::WhitelistMatch => false,
        },
    }
}

} // verus!
