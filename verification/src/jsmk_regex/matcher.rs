//! The boundary with the `regex` crate.
//!
//! Nothing in this file is proved: each item states what the crate is
//! taken to do, and the rest of the library is verified against these
//! statements.

use regex::Regex;
use vstd::prelude::*;

verus! {

/// The compiled matcher of the `regex` crate, opaque to verification.
#[verifier::external_type_specification]
#[verifier::external_body]
pub struct ExRegex(Regex);

/// The compilation error of the `regex` crate, opaque to verification.
#[verifier::external_type_specification]
#[verifier::external_body]
pub struct ExRegexError(regex::Error);

/// Whether `Regex::new` accepts the pattern text.
pub uninterp spec fn pattern_compiles(pattern: Seq<char>) -> bool;

/// The pattern text a matcher was compiled from, which `Regex::as_str`
/// returns.
pub uninterp spec fn regex_source(re: Regex) -> Seq<char>;

/// The text of the first match that `Regex::find` reports for the pattern in
/// the haystack, or `None` where it reports no match.
pub uninterp spec fn first_match(pattern: Seq<char>, haystack: Seq<char>) -> Option<Seq<char>>;

/// Calls `Regex::new`. The call succeeds exactly on the patterns the crate
/// compiles, and the matcher it returns remembers the pattern text.
#[verifier::external_body]
pub(crate) fn compile(pattern: &str) -> (r: Result<Regex, regex::Error>)
    ensures
        r is Ok == pattern_compiles(pattern@),
        r matches Ok(re) ==> regex_source(re) == pattern@,
{
    Regex::new(pattern)
}

/// Calls `Regex::find` and takes the matched text with `Match::as_str`. The
/// outcome depends on the pattern text and the haystack alone.
#[verifier::external_body]
pub(crate) fn find_first<'h>(re: &Regex, haystack: &'h str) -> (r: Option<&'h str>)
    ensures
        r is Some == first_match(regex_source(*re), haystack@) is Some,
        r matches Some(m) ==> first_match(regex_source(*re), haystack@) == Some(m@),
{
    match re.find(haystack) {
        Some(m) => Some(m.as_str()),
        None => None,
    }
}

} // verus!
