//! Raw rule records, their compiled form, and the compiler between them.
use vstd::prelude::*;

use crate::pattern::{compile_pattern, regex_accepts, regex_source};
use crate::settings::RuleConfig;

verus! {

/// A rule record as read from a rule source, before any pattern is compiled.
#[derive(Debug, PartialEq)]
pub struct Rule {
    pub name: String,
    pub description: String,
    /// Carried by the record; every record is compiled whatever it says, and
    /// a scanner may skip the disabled ones.
    pub enabled: bool,
    pub keywords: Option<Vec<String>>,
    /// The primary pattern.
    pub rule: String,
    pub exceptions: Option<Vec<String>>,
    pub validation: Option<String>,
    pub keyword_max_distance: Option<u64>,
    pub tags: Option<Vec<String>>,
    pub example: Option<Vec<String>>,
}

/// A rule whose patterns have all been compiled.
#[derive(Debug)]
pub struct CompileRule {
    pub name: String,
    pub description: String,
    pub keywords: Option<Vec<regex::Regex>>,
    pub rule: regex::Regex,
    pub exceptions: Option<Vec<regex::Regex>>,
    pub validation: Option<String>,
    pub keyword_max_distance: u64,
    pub tags: Option<Vec<String>>,
    pub example: Option<Vec<String>>,
}

/// The registry: every compiled rule, in the order of the records.
pub struct Rules {
    pub rules: Vec<CompileRule>,
}

/// A pattern of the rule `name` that does not compile.
#[derive(Debug)]
pub struct CompileError {
    pub name: String,
    pub pattern: String,
}

/// The texts of a sequence of strings.
pub open spec fn texts(v: Seq<String>) -> Seq<Seq<char>> {
    v.map_values(|s: String| s@)
}

/// The texts of an optional list of strings; an absent list has none.
pub open spec fn opt_texts(v: Option<Vec<String>>) -> Seq<Seq<char>> {
    match v {
        Some(v) => texts(v@),
        None => seq![],
    }
}

/// Whether every text of `ps` compiles.
pub open spec fn all_accepted(ps: Seq<Seq<char>>) -> bool {
    forall|i: int| 0 <= i < ps.len() ==> #[trigger] regex_accepts(ps[i])
}

/// The first pattern text of `ps` that does not compile.
pub open spec fn first_rejected(ps: Seq<Seq<char>>) -> Seq<char>
    decreases ps.len(),
{
    if ps.len() == 0 {
        seq![]
    } else if !regex_accepts(ps[0]) {
        ps[0]
    } else {
        first_rejected(ps.drop_first())
    }
}

/// Each matcher of `ms` was compiled from the text at the same place in `ps`.
pub open spec fn compiled_each(ms: Seq<regex::Regex>, ps: Seq<Seq<char>>) -> bool {
    &&& ms.len() == ps.len()
    &&& forall|i: int| 0 <= i < ms.len() ==> #[trigger] regex_source(ms[i]) == ps[i]
}

/// An optional list of matchers compiled from an optional list of texts.
pub open spec fn compiled_opt(ms: Option<Vec<regex::Regex>>, ps: Option<Vec<String>>) -> bool {
    match (ms, ps) {
        (Some(ms), Some(ps)) => compiled_each(ms@, texts(ps@)),
        (None, None) => true,
        _ => false,
    }
}

/// The keyword texts that compilation takes up: none while keywords are
/// switched off.
pub open spec fn keywords_used(raw: Rule, config: RuleConfig) -> Option<Vec<String>> {
    if config.enable_keywords {
        raw.keywords
    } else {
        None
    }
}

/// Every pattern text compilation takes up from `raw`, in the order tried:
/// the primary pattern, the keywords in use, then the exceptions.
pub open spec fn checked_patterns(raw: Rule, config: RuleConfig) -> Seq<Seq<char>> {
    seq![raw.rule@] + opt_texts(keywords_used(raw, config)) + opt_texts(raw.exceptions)
}

/// The keyword distance in force for `raw`.
pub open spec fn resolved_distance(raw: Rule, config: RuleConfig) -> u64 {
    match raw.keyword_max_distance {
        Some(d) => d,
        None => config.keyword_max_distance_default,
    }
}

/// Whether every pattern that compiling `raw` takes up compiles.
pub open spec fn rule_valid(raw: Rule, config: RuleConfig) -> bool {
    all_accepted(checked_patterns(raw, config))
}

/// `c` is the compiled form of `raw`.
pub open spec fn compiled_from(c: CompileRule, raw: Rule, config: RuleConfig) -> bool {
    &&& c.name == raw.name
    &&& c.description == raw.description
    &&& regex_source(c.rule) == raw.rule@
    &&& compiled_opt(c.keywords, keywords_used(raw, config))
    &&& compiled_opt(c.exceptions, raw.exceptions)
    &&& c.validation == raw.validation
    &&& c.keyword_max_distance == resolved_distance(raw, config)
    &&& c.tags == raw.tags
    &&& c.example == raw.example
}

/// The error that compiling the invalid `raw` reports.
pub open spec fn rejected_by(e: CompileError, raw: Rule, config: RuleConfig) -> bool {
    &&& e.name == raw.name
    &&& e.pattern@ == first_rejected(checked_patterns(raw, config))
}

/// If the first text that does not compile stands at `i`, it is the one
/// `first_rejected` names.
pub proof fn lemma_first_rejected_at(ps: Seq<Seq<char>>, i: int)
    requires
        0 <= i < ps.len(),
        forall|j: int| 0 <= j < i ==> #[trigger] regex_accepts(ps[j]),
        !regex_accepts(ps[i]),
    ensures
        first_rejected(ps) == ps[i],
    decreases i,
{
    if i > 0 {
        assert(regex_accepts(ps[0]));
        let rest = ps.drop_first();
        assert forall|j: int| 0 <= j < i - 1 implies #[trigger] regex_accepts(rest[j]) by {
            assert(rest[j] == ps[j + 1]);
        }
        lemma_first_rejected_at(rest, i - 1);
    }
}

/// Compiles each text of `ps` in order, stopping at the first that fails;
/// the error is its position.
pub fn compile_patterns(ps: &Vec<String>) -> (r: Result<Vec<regex::Regex>, usize>)
    ensures
        r is Ok <==> all_accepted(texts(ps@)),
        r matches Ok(ms) ==> compiled_each(ms@, texts(ps@)),
        r matches Err(i) ==> {
            &&& i < ps.len()
            &&& forall|j: int| 0 <= j < i ==> #[trigger] regex_accepts(ps@[j]@)
            &&& !regex_accepts(ps@[i as int]@)
        },
{
    let mut ms: Vec<regex::Regex> = Vec::new();
    let mut i: usize = 0;
    while i < ps.len()
        invariant
            i <= ps.len(),
            compiled_each(ms@, texts(ps@).take(i as int)),
            forall|j: int| 0 <= j < i ==> #[trigger] regex_accepts(ps@[j]@),
        decreases ps.len() - i,
    {
        match compile_pattern(&ps[i]) {
            Ok(m) => {
                ms.push(m);
            },
            Err(_) => {
                proof {
                    assert(texts(ps@)[i as int] == ps@[i as int]@);
                }
                return Err(i);
            },
        }
        i = i + 1;
    }
    proof {
        assert(texts(ps@).take(i as int) =~= texts(ps@));
    }
    Ok(ms)
}

impl CompileRule {
    pub fn new(
        name: String,
        description: String,
        keywords: Option<Vec<regex::Regex>>,
        rule: regex::Regex,
        exceptions: Option<Vec<regex::Regex>>,
        validation: Option<String>,
        keyword_max_distance: u64,
        tags: Option<Vec<String>>,
        example: Option<Vec<String>>,
    ) -> (r: Self)
        ensures
            r.name == name,
            r.description == description,
            r.keywords == keywords,
            r.rule == rule,
            r.exceptions == exceptions,
            r.validation == validation,
            r.keyword_max_distance == keyword_max_distance,
            r.tags == tags,
            r.example == example,
    {
        CompileRule {
            name,
            description,
            keywords,
            rule,
            exceptions,
            validation,
            keyword_max_distance,
            tags,
            example,
        }
    }
}

/// The keyword distance a rule without one of its own takes.
pub fn default_keyword_max_distance(config: &RuleConfig) -> (r: Option<u64>)
    ensures
        r == Some(config.keyword_max_distance_default),
{
    Some(config.keyword_max_distance_default)
}

/// Compiles one rule record: the primary pattern, then the keywords (only
/// while keywords are switched on), then the exceptions. The first pattern
/// that does not compile fails the whole record.
pub fn compile(raw: Rule, config: &RuleConfig) -> (r: Result<CompileRule, CompileError>)
    ensures
        r is Ok <==> rule_valid(raw, *config),
        r matches Ok(c) ==> compiled_from(c, raw, *config),
        r matches Err(e) ==> rejected_by(e, raw, *config),
{
    let ghost checked = checked_patterns(raw, *config);
    let ghost kw = opt_texts(keywords_used(raw, *config));
    let ghost ex = opt_texts(raw.exceptions);
    assert(checked == seq![raw.rule@] + kw + ex);
    assert(checked[0] == raw.rule@);

    let primary = match compile_pattern(&raw.rule) {
        Ok(m) => m,
        Err(_) => {
            proof {
                lemma_first_rejected_at(checked, 0);
            }
            return Err(CompileError { name: raw.name, pattern: raw.rule });
        },
    };

    let keywords = if config.enable_keywords {
        match &raw.keywords {
            Some(ks) => match compile_patterns(ks) {
                Ok(ms) => Some(ms),
                Err(i) => {
                    proof {
                        assert forall|j: int| 0 <= j < 1 + i implies #[trigger] regex_accepts(
                            checked[j],
                        ) by {
                            if j > 0 {
                                assert(checked[j] == ks@[j - 1]@);
                            }
                        }
                        assert(checked[1 + i] == ks@[i as int]@);
                        lemma_first_rejected_at(checked, 1 + i);
                    }
                    return Err(CompileError { name: raw.name, pattern: ks[i].clone() });
                },
            },
            None => None,
        }
    } else {
        None
    };

    let exceptions = match &raw.exceptions {
        Some(es) => match compile_patterns(es) {
            Ok(ms) => Some(ms),
            Err(i) => {
                proof {
                    assert forall|j: int| 0 <= j < 1 + kw.len() + i implies #[trigger] regex_accepts(
                        checked[j],
                    ) by {
                        if 1 <= j < 1 + kw.len() {
                            assert(checked[j] == kw[j - 1]);
                        } else if j >= 1 + kw.len() {
                            assert(checked[j] == es@[j - 1 - kw.len()]@);
                        }
                    }
                    assert(checked[1 + kw.len() + i] == es@[i as int]@);
                    lemma_first_rejected_at(checked, 1 + kw.len() + i);
                }
                return Err(CompileError { name: raw.name, pattern: es[i].clone() });
            },
        },
        None => None,
    };

    proof {
        assert forall|j: int| 0 <= j < checked.len() implies #[trigger] regex_accepts(checked[j]) by {
            if 1 <= j < 1 + kw.len() {
                assert(checked[j] == kw[j - 1]);
            } else if j >= 1 + kw.len() {
                assert(checked[j] == ex[j - 1 - kw.len()]);
            }
        }
    }

    let keyword_max_distance: u64 = match raw.keyword_max_distance {
        Some(d) => d,
        None => config.keyword_max_distance_default,
    };
    Ok(
        CompileRule::new(
            raw.name,
            raw.description,
            keywords,
            primary,
            exceptions,
            raw.validation,
            keyword_max_distance,
            raw.tags,
            raw.example,
        ),
    )
}

/// Whether every record of `raws` is valid.
pub open spec fn all_valid(raws: Seq<Rule>, config: RuleConfig) -> bool {
    forall|i: int| 0 <= i < raws.len() ==> #[trigger] rule_valid(raws[i], config)
}

/// The position of the first record of `raws` that is not valid.
pub open spec fn first_invalid(raws: Seq<Rule>, config: RuleConfig) -> int
    decreases raws.len(),
{
    if raws.len() == 0 || !rule_valid(raws[0], config) {
        0
    } else {
        1 + first_invalid(raws.drop_first(), config)
    }
}

/// What compiling the records `raws` into a registry gives: every record
/// compiled, in order, or the error of the first record that fails.
pub open spec fn registry_outcome(raws: Seq<Rule>, config: RuleConfig, r: Result<Rules, CompileError>) -> bool {
    &&& r is Ok <==> all_valid(raws, config)
    &&& r is Ok ==> {
        &&& r->Ok_0.rules@.len() == raws.len()
        &&& forall|i: int|
            0 <= i < raws.len() ==> #[trigger] compiled_from(r->Ok_0.rules@[i], raws[i], config)
    }
    &&& r is Err ==> rejected_by(r->Err_0, raws[first_invalid(raws, config)], config)
}

/// If the first invalid record stands at `i`, it is the one `first_invalid`
/// names.
pub proof fn lemma_first_invalid_at(raws: Seq<Rule>, config: RuleConfig, i: int)
    requires
        0 <= i < raws.len(),
        forall|j: int| 0 <= j < i ==> #[trigger] rule_valid(raws[j], config),
        !rule_valid(raws[i], config),
    ensures
        first_invalid(raws, config) == i,
    decreases i,
{
    if i > 0 {
        assert(rule_valid(raws[0], config));
        let rest = raws.drop_first();
        assert forall|j: int| 0 <= j < i - 1 implies #[trigger] rule_valid(rest[j], config) by {
            assert(rest[j] == raws[j + 1]);
        }
        lemma_first_invalid_at(rest, config, i - 1);
    }
}

/// Compiles every record into the registry. One pattern that does not
/// compile, in any record, fails the whole registry.
pub fn compile_rule(raws: Vec<Rule>, config: &RuleConfig) -> (r: Result<Rules, CompileError>)
    ensures
        registry_outcome(raws@, *config, r),
{
    let ghost all = raws@;
    let n: usize = raws.len();
    let mut pending = raws;
    let mut compiled: Vec<CompileRule> = Vec::new();
    let mut i: usize = 0;
    while pending.len() > 0
        invariant
            i + pending@.len() == all.len(),
            all == raws@,
            all.len() == n,
            pending@ == all.skip(i as int),
            compiled@.len() == i,
            forall|j: int| 0 <= j < i ==> #[trigger] compiled_from(compiled@[j], all[j], *config),
            forall|j: int| 0 <= j < i ==> #[trigger] rule_valid(all[j], *config),
        decreases pending@.len(),
    {
        let raw = pending.remove(0);
        assert(raw == all[i as int]);
        match compile(raw, config) {
            Ok(c) => {
                compiled.push(c);
            },
            Err(e) => {
                proof {
                    lemma_first_invalid_at(all, *config, i as int);
                }
                return Err(e);
            },
        }
        i = i + 1;
        assert(pending@ =~= all.skip(i as int));
    }
    Ok(Rules { rules: compiled })
}

} // verus!
