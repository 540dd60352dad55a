use whatis::rule::{compile, compile_rule, default_keyword_max_distance, CompileRule, Rule};
use whatis::settings::RuleConfig;

const ID_PATTERN: &str = r"(?i)(1[1-5]|2[1-3]|3[1-7]|4[1-6]|5[0-4]|6[1-5]|71|8[1-3])(0[1-9]|[1-6][0-9]|70)\d{2}(19|20)\d{2}(0[1-9]|1[0-2])(0[1-9]|[1-2][0-9]|3[0-1])\d{3}[0-9x]";

fn config(enable_keywords: bool, default: u64) -> RuleConfig {
    RuleConfig { enable_keywords, keyword_max_distance_default: default }
}

fn strings(v: &[&str]) -> Vec<String> {
    v.iter().map(|s| s.to_string()).collect()
}

fn plain(name: &str, rule: &str) -> Rule {
    Rule {
        name: name.to_string(),
        description: format!("{} description", name),
        enabled: true,
        keywords: None,
        rule: rule.to_string(),
        exceptions: None,
        validation: None,
        keyword_max_distance: None,
        tags: None,
        example: None,
    }
}

fn id_rule() -> Rule {
    Rule {
        name: "Chinese Mainland ID number".to_string(),
        description: "Chinese Mainland ID number，excluding Hong Kong, Macao, and Taiwan".to_string(),
        enabled: true,
        keywords: Some(strings(&["(?i)id", "身份证", "证件", "证明"])),
        rule: ID_PATTERN.to_string(),
        exceptions: Some(strings(&["His employee ID is 372522197003231000"])),
        validation: Some("chinese_mainland_id_number".to_string()),
        keyword_max_distance: Some(30),
        tags: None,
        example: None,
    }
}

fn sources(v: &Option<Vec<regex::Regex>>) -> Option<Vec<String>> {
    v.as_ref().map(|ms| ms.iter().map(|m| m.as_str().to_string()).collect())
}

fn compiled(r: Rule, c: &RuleConfig) -> CompileRule {
    match compile(r, c) {
        Ok(c) => c,
        Err(e) => panic!("rule {} failed on {}", e.name, e.pattern),
    }
}

#[test]
fn id_number_rule_compiles_with_every_field() {
    let c = compiled(id_rule(), &config(true, 10));
    assert_eq!(c.name, "Chinese Mainland ID number");
    assert_eq!(c.description, "Chinese Mainland ID number，excluding Hong Kong, Macao, and Taiwan");
    assert_eq!(c.rule.as_str(), ID_PATTERN);
    assert_eq!(sources(&c.keywords), Some(strings(&["(?i)id", "身份证", "证件", "证明"])));
    assert_eq!(sources(&c.exceptions), Some(strings(&["His employee ID is 372522197003231000"])));
    assert_eq!(c.validation, Some("chinese_mainland_id_number".to_string()));
    assert_eq!(c.keyword_max_distance, 30);
    assert!(c.rule.is_match("His ID is 11010519491231002X"));
    assert!(c.keywords.as_ref().unwrap()[0].is_match("ID"));
}

#[test]
fn four_digit_rule_takes_default_distance() {
    let c = compiled(plain("year", r"\d{4}"), &config(true, 30));
    assert_eq!(c.keyword_max_distance, 30);
    assert!(c.keywords.is_none());
    assert!(c.exceptions.is_none());
    assert_eq!(c.rule.as_str(), r"\d{4}");
}

#[test]
fn own_distance_is_kept() {
    let mut r = plain("year", r"\d{4}");
    r.keyword_max_distance = Some(7);
    let c = compiled(r, &config(true, 30));
    assert_eq!(c.keyword_max_distance, 7);
}

#[test]
fn keywords_switched_off_are_dropped() {
    let c = compiled(id_rule(), &config(false, 30));
    assert!(c.keywords.is_none());
    assert!(c.exceptions.is_some());
}

#[test]
fn bad_keyword_is_ignored_while_keywords_are_off() {
    let mut r = plain("kw", "a+");
    r.keywords = Some(strings(&["ok", "(bad"]));
    let c = compiled(r, &config(false, 5));
    assert!(c.keywords.is_none());
}

#[test]
fn bad_keyword_fails_while_keywords_are_on() {
    let mut r = plain("kw", "a+");
    r.keywords = Some(strings(&["ok", "(bad", "[worse"]));
    let e = compile(r, &config(true, 5)).err().unwrap();
    assert_eq!(e.name, "kw");
    assert_eq!(e.pattern, "(bad");
}

#[test]
fn invalid_primary_pattern_names_rule() {
    let e = compile(plain("broken", "(unbalanced"), &config(true, 30)).err().unwrap();
    assert_eq!(e.name, "broken");
    assert_eq!(e.pattern, "(unbalanced");
}

#[test]
fn primary_pattern_is_reported_before_exceptions() {
    let mut r = plain("both", "a(");
    r.exceptions = Some(strings(&["b("]));
    r.keywords = Some(strings(&["c("]));
    let e = compile(r, &config(true, 30)).err().unwrap();
    assert_eq!(e.pattern, "a(");
}

#[test]
fn keyword_is_reported_before_exceptions() {
    let mut r = plain("both", "a");
    r.exceptions = Some(strings(&["b("]));
    r.keywords = Some(strings(&["c("]));
    let e = compile(r, &config(true, 30)).err().unwrap();
    assert_eq!(e.pattern, "c(");
}

#[test]
fn oversized_pattern_is_rejected() {
    let e = compile(plain("huge", r"\w{1000}"), &config(true, 30)).err().unwrap();
    assert_eq!(e.pattern, r"\w{1000}");
}

#[test]
fn bad_exception_fails_whole_registry() {
    let mut bad = plain("bad", "x");
    bad.exceptions = Some(strings(&["fine", "(oops"]));
    let res = compile_rule(vec![plain("good", r"\d{4}"), bad], &config(true, 30));
    let e = res.err().unwrap();
    assert_eq!(e.name, "bad");
    assert_eq!(e.pattern, "(oops");
}

#[test]
fn first_invalid_record_is_reported() {
    let raws = vec![plain("ok", "a"), plain("first", "("), plain("second", "[")];
    let e = compile_rule(raws, &config(true, 30)).err().unwrap();
    assert_eq!(e.name, "first");
    assert_eq!(e.pattern, "(");
}

#[test]
fn valid_records_compile_in_order() {
    let mut second = plain("second", "b+");
    second.keyword_max_distance = Some(4);
    let rules = compile_rule(vec![plain("first", "a+"), second, id_rule()], &config(false, 12)).ok().unwrap();
    assert_eq!(rules.rules.len(), 3);
    assert_eq!(rules.rules[0].name, "first");
    assert_eq!(rules.rules[0].description, "first description");
    assert_eq!(rules.rules[0].keyword_max_distance, 12);
    assert_eq!(rules.rules[1].name, "second");
    assert_eq!(rules.rules[1].rule.as_str(), "b+");
    assert_eq!(rules.rules[1].keyword_max_distance, 4);
    assert_eq!(rules.rules[2].name, "Chinese Mainland ID number");
    assert!(rules.rules.iter().all(|r| r.keywords.is_none()));
}

#[test]
fn empty_record_set_gives_empty_registry() {
    let rules = compile_rule(Vec::new(), &config(true, 30)).ok().unwrap();
    assert!(rules.rules.is_empty());
}

#[test]
fn disabled_records_are_compiled_too() {
    let mut r = plain("off", "z");
    r.enabled = false;
    let rules = compile_rule(vec![r], &config(true, 30)).ok().unwrap();
    assert_eq!(rules.rules.len(), 1);
}

#[test]
fn metadata_is_carried_through() {
    let mut r = plain("meta", "m");
    r.tags = Some(strings(&["pii"]));
    r.example = Some(strings(&["m"]));
    let c = compiled(r, &config(true, 30));
    assert_eq!(c.tags, Some(strings(&["pii"])));
    assert_eq!(c.example, Some(strings(&["m"])));
}

#[test]
fn default_distance_comes_from_config() {
    assert_eq!(default_keyword_max_distance(&config(true, 30)), Some(30));
    assert_eq!(default_keyword_max_distance(&config(false, 0)), Some(0));
}

#[test]
fn invalid_primary_pattern_fails_registry() {
    let raws = vec![plain("good", r"\d{4}"), plain("unbalanced", r"(\d{4}")];
    let e = compile_rule(raws, &config(true, 30)).err().unwrap();
    assert_eq!(e.name, "unbalanced");
    assert_eq!(e.pattern, r"(\d{4}");
}
