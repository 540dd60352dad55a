//! Facts about compiling a whole set of rule records into a registry.
use vstd::prelude::*;

use crate::pattern::regex_accepts;
use crate::rule::{
    all_valid, checked_patterns, compiled_from, keywords_used, opt_texts, registry_outcome,
    rule_valid, CompileError, Rule, Rules,
};
use crate::settings::RuleConfig;

verus! {

/// A set of records that are all valid compiles: the registry holds exactly
/// one compiled rule per record, in order, with name and description kept.
pub proof fn lemma_valid_records_all_compile(
    raws: Seq<Rule>,
    config: RuleConfig,
    r: Result<Rules, CompileError>,
)
    requires
        all_valid(raws, config),
        registry_outcome(raws, config, r),
    ensures
        r is Ok,
        r->Ok_0.rules@.len() == raws.len(),
        forall|i: int|
            0 <= i < raws.len() ==> {
                &&& (#[trigger] r->Ok_0.rules@[i]).name == raws[i].name
                &&& r->Ok_0.rules@[i].description == raws[i].description
            },
{
    assert forall|i: int| 0 <= i < raws.len() implies {
        &&& (#[trigger] r->Ok_0.rules@[i]).name == raws[i].name
        &&& r->Ok_0.rules@[i].description == raws[i].description
    } by {
        assert(compiled_from(r->Ok_0.rules@[i], raws[i], config));
    }
}

/// With keywords switched off, no compiled rule has keywords, whatever the
/// records supply.
pub proof fn lemma_keywords_off(raws: Seq<Rule>, config: RuleConfig, r: Result<Rules, CompileError>)
    requires
        !config.enable_keywords,
        registry_outcome(raws, config, r),
        r is Ok,
    ensures
        forall|i: int| 0 <= i < raws.len() ==> (#[trigger] r->Ok_0.rules@[i]).keywords is None,
{
    assert forall|i: int| 0 <= i < raws.len() implies (#[trigger] r->Ok_0.rules@[i]).keywords is None by {
        assert(compiled_from(r->Ok_0.rules@[i], raws[i], config));
    }
}

/// A record's own keyword distance is kept exactly; a record without one
/// takes the configured default.
pub proof fn lemma_distance_resolved(raws: Seq<Rule>, config: RuleConfig, r: Result<Rules, CompileError>)
    requires
        registry_outcome(raws, config, r),
        r is Ok,
    ensures
        forall|i: int|
            0 <= i < raws.len() ==> (#[trigger] r->Ok_0.rules@[i]).keyword_max_distance == match raws[i].keyword_max_distance {
                Some(d) => d,
                None => config.keyword_max_distance_default,
            },
{
    assert forall|i: int| 0 <= i < raws.len() implies (#[trigger] r->Ok_0.rules@[i]).keyword_max_distance
        == match raws[i].keyword_max_distance {
        Some(d) => d,
        None => config.keyword_max_distance_default,
    } by {
        assert(compiled_from(r->Ok_0.rules@[i], raws[i], config));
    }
}

/// One pattern that does not compile, in one record, fails the whole
/// registry: the primary pattern, an exception, or a keyword while keywords
/// are switched on (switched off, keywords are never compiled).
pub proof fn lemma_one_bad_pattern_fails_all(
    raws: Seq<Rule>,
    config: RuleConfig,
    r: Result<Rules, CompileError>,
    i: int,
)
    requires
        0 <= i < raws.len(),
        registry_outcome(raws, config, r),
        !regex_accepts(raws[i].rule@) || (config.enable_keywords && exists|k: int|
            0 <= k < opt_texts(raws[i].keywords).len() && !regex_accepts(
                #[trigger] opt_texts(raws[i].keywords)[k],
            )) || (exists|k: int|
            0 <= k < opt_texts(raws[i].exceptions).len() && !regex_accepts(
                #[trigger] opt_texts(raws[i].exceptions)[k],
            )),
    ensures
        r is Err,
{
    let raw = raws[i];
    let checked = checked_patterns(raw, config);
    let kw = opt_texts(keywords_used(raw, config));
    let ex = opt_texts(raw.exceptions);
    assert(checked == seq![raw.rule@] + kw + ex);
    if !regex_accepts(raw.rule@) {
        assert(checked[0] == raw.rule@);
    } else if config.enable_keywords && exists|k: int|
        0 <= k < opt_texts(raw.keywords).len() && !regex_accepts(#[trigger] opt_texts(raw.keywords)[k]) {
        let k = choose|k: int|
            0 <= k < opt_texts(raw.keywords).len() && !regex_accepts(#[trigger] opt_texts(raw.keywords)[k]);
        assert(checked[1 + k] == kw[k]);
    } else {
        let k = choose|k: int|
            0 <= k < ex.len() && !regex_accepts(#[trigger] ex[k]);
        assert(checked[1 + kw.len() + k] == ex[k]);
    }
    assert(!rule_valid(raw, config));
    assert(!all_valid(raws, config));
}

} // verus!
