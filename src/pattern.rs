//! The regular-expression engine this library compiles rule patterns with.
//!
//! Compilation itself belongs to the `regex` crate. What the library relies on
//! is stated here: whether a pattern compiles depends on its text alone, and a
//! compiled matcher remembers the text it was built from.
use vstd::prelude::*;

verus! {

#[verifier::external_type_specification]
#[verifier::external_body]
pub struct ExRegex(regex::Regex);

#[verifier::external_type_specification]
#[verifier::external_body]
pub struct ExRegexError(regex::Error);

/// Whether `regex::Regex::new` accepts the pattern text `p` (its syntax is
/// valid and the compiled program stays under the default size limit).
pub uninterp spec fn regex_accepts(p: Seq<char>) -> bool;

/// The pattern text a compiled matcher keeps (the text `regex::Regex::as_str`
/// reports).
pub uninterp spec fn regex_source(r: regex::Regex) -> Seq<char>;

/// Relies on `regex::Regex::new`: it fails on an invalid or oversized pattern
/// and otherwise returns a matcher that keeps the given text as its source.
pub assume_specification[ regex::Regex::new ](re: &str) -> (r: Result<regex::Regex, regex::Error>)
    ensures
        r is Ok <==> regex_accepts(re@),
        r matches Ok(m) ==> regex_source(m) == re@,
;

/// Compiles one pattern text.
pub fn compile_pattern(p: &String) -> (r: Result<regex::Regex, regex::Error>)
    ensures
        r is Ok <==> regex_accepts(p@),
        r matches Ok(m) ==> regex_source(m) == p@,
{
    regex::Regex::new(p.as_str())
}

} // verus!
