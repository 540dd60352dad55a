//! Process-wide settings that rule compilation reads.
use vstd::prelude::*;

verus! {

/// The whole configuration record.
#[derive(Debug)]
pub struct Config {
    pub rule: RuleConfig,
}

/// Settings of the rule compiler.
#[derive(Debug, Clone, Copy)]
pub struct RuleConfig {
    /// Whether keyword patterns are compiled at all.
    pub enable_keywords: bool,
    /// The keyword distance of a rule that gives none of its own.
    pub keyword_max_distance_default: u64,
}

} // verus!
