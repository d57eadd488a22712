//! A compiled pattern, kept together with its text.

use crate::jsmk_regex::matcher::{compile, find_first, first_match, pattern_compiles, regex_source};
use crate::text::{same_text, text_of};
use regex::Regex;
use vstd::pervasive::unreached;
use vstd::prelude::*;

verus! {

/// A compiled matcher and the pattern text it was compiled from.
#[derive(Debug)]
pub struct RegexWrapper {
    /// The compiled matcher.
    pub re: Regex,
    /// The pattern text of the matcher.
    pub pattern: String,
}

impl RegexWrapper {
    /// The matcher was compiled from the pattern text kept beside it.
    pub open spec fn wf(&self) -> bool {
        regex_source(self.re) == self.pattern@
    }

    /// Compiles `value`. Succeeds exactly on the pattern texts that compile,
    /// and then keeps `value` as the pattern text.
    pub fn try_from(value: &str) -> (r: Result<Self, regex::Error>)
        ensures
            r is Ok == pattern_compiles(value@),
            r matches Ok(w) ==> w.pattern@ == value@ && w.wf(),
    {
        match compile(value) {
            Ok(re) => Ok(Self { re, pattern: value.to_owned() }),
            Err(e) => Err(e),
        }
    }

    /// The text of the first match of the pattern in `haystack`, if there
    /// is a match.
    pub fn find<'h>(&self, haystack: &'h str) -> (r: Option<&'h str>)
        requires
            self.wf(),
        ensures
            text_of(r) == first_match(self.pattern@, haystack@),
    {
        find_first(&self.re, haystack)
    }

    /// Whether the pattern matches somewhere in `haystack`.
    pub fn is_match(&self, haystack: &str) -> (b: bool)
        requires
            self.wf(),
        ensures
            b == first_match(self.pattern@, haystack@) is Some,
    {
        self.find(haystack).is_some()
    }

    /// Whether the first match of the pattern in `haystack` is the whole of
    /// `haystack`.
    pub fn matches_whole(&self, haystack: &str) -> (b: bool)
        requires
            self.wf(),
        ensures
            b == (first_match(self.pattern@, haystack@) == Some(haystack@)),
    {
        match self.find(haystack) {
            Some(m) => same_text(m, haystack),
            None => false,
        }
    }
}

/// Compiles a pattern text that is known to compile.
pub fn fast_regex(pattern: &str) -> (w: RegexWrapper)
    requires
        pattern_compiles(pattern@),
    ensures
        w.pattern@ == pattern@,
        w.wf(),
{
    match RegexWrapper::try_from(pattern) {
        Ok(w) => w,
        Err(_) => unreached(),
    }
}

} // verus!
