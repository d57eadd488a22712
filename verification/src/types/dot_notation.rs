//! Dotted identifiers: lowercase words joined by dots.

use crate::jsmk_regex::matcher::{first_match, pattern_compiles};
use crate::jsmk_regex::regex_wrapper::{fast_regex, RegexWrapper};
use crate::text::{
    is_space, joined, lemma_split_on, lemma_trimmed_of_tight, same_text, split, split_on, text_of,
    trim, trimmed, views,
};
use vstd::prelude::*;

verus! {

/// The pattern of a dotted identifier: words of lowercase letters and
/// digits that start with a letter, joined by dots, with white space allowed
/// around the whole.
pub const DOT_SYNTAX_REGEX: &'static str = r"\s*([a-z][a-z0-9]*)(\.[a-z][a-z0-9]*)*\s*";

/// The words of a dotted identifier, from the outermost to the innermost.
#[derive(Debug)]
pub struct DotNotation(Vec<String>);

/// The text that is no dotted identifier.
#[derive(Debug)]
pub struct ParseError(String);

impl View for DotNotation {
    type V = Seq<Seq<char>>;

    closed spec fn view(&self) -> Seq<Seq<char>> {
        views(self.0@)
    }
}

impl View for ParseError {
    type V = Seq<char>;

    closed spec fn view(&self) -> Seq<char> {
        self.0@
    }
}

/// Whether `r` is what `s` parses to, where `found` is the first match of
/// the pattern in `s`: the words between the dots of the trimmed text where
/// the match is the whole of `s`, else an error that holds `s` as it came.
pub open spec fn parsed_as(
    s: Seq<char>,
    found: Option<Seq<char>>,
    r: Result<DotNotation, ParseError>,
) -> bool {
    match r {
        Ok(dots) => found == Some(s) && dots@ == split_on(trimmed(s), '.'),
        Err(e) => found != Some(s) && e@ == s,
    }
}

impl DotNotation {
    /// Parses `s`, given the first match of the pattern in it.
    pub fn from_match(s: &str, found: Option<&str>) -> (r: Result<Self, ParseError>)
        ensures
            parsed_as(s@, text_of(found), r),
    {
        let whole = match found {
            Some(m) => same_text(m, s),
            None => false,
        };
        if whole {
            Ok(Self(split(trim(s), '.')))
        } else {
            Err(ParseError(s.to_owned()))
        }
    }

    /// Parses `s` as a dotted identifier: the first match of
    /// [`DOT_SYNTAX_REGEX`] in `s` has to be the whole of `s`.
    ///
    /// The pattern has to compile; [`Self::parse`] asks for nothing.
    pub fn try_from(s: &str) -> (r: Result<Self, ParseError>)
        requires
            pattern_compiles(DOT_SYNTAX_REGEX@),
        ensures
            parsed_as(s@, first_match(DOT_SYNTAX_REGEX@, s@), r),
    {
        let re = fast_regex(DOT_SYNTAX_REGEX);
        Self::from_match(s, re.find(s))
    }

    /// Parses `s` as [`Self::try_from`] does, or returns `None` where the
    /// pattern of dotted identifiers does not compile.
    pub fn parse(s: &str) -> (r: Option<Result<Self, ParseError>>)
        ensures
            r is Some == pattern_compiles(DOT_SYNTAX_REGEX@),
            r matches Some(parsed) ==> parsed_as(s@, first_match(DOT_SYNTAX_REGEX@, s@), parsed),
    {
        if RegexWrapper::try_from(DOT_SYNTAX_REGEX).is_ok() {
            Some(Self::try_from(s))
        } else {
            None
        }
    }

    /// The words, from the outermost to the innermost.
    pub fn words(&self) -> (words: &Vec<String>)
        ensures
            views(words@) == self@,
    {
        &self.0
    }
}

impl ParseError {
    /// The error that holds `provided`.
    pub fn new(provided: &str) -> (e: Self)
        ensures
            e@ == provided@,
    {
        Self(provided.to_owned())
    }

    /// The text that was not accepted, as it came.
    pub fn provided(&self) -> (text: &str)
        ensures
            text@ == self@,
    {
        self.0.as_str()
    }
}

/// The words of a dotted identifier, joined by dots, are the trimmed text it
/// was parsed from; there is at least one word, and no word holds a dot.
pub proof fn lemma_words_give_the_text_back(
    s: Seq<char>,
    found: Option<Seq<char>>,
    dots: DotNotation,
)
    requires
        parsed_as(s, found, Ok(dots)),
    ensures
        dots@.len() >= 1,
        joined(dots@, '.') == trimmed(s),
        forall|i: int, k: int|
            0 <= i < dots@.len() && 0 <= k < dots@[i].len() ==> (#[trigger] dots@[i][k]) != '.',
{
    lemma_split_on(trimmed(s), '.');
}

/// The words of a dotted identifier that was parsed from a text without
/// white space at its ends are the pieces of that text between its dots.
pub proof fn lemma_words_are_the_split_of_the_text(
    s: Seq<char>,
    found: Option<Seq<char>>,
    dots: DotNotation,
)
    requires
        parsed_as(s, found, Ok(dots)),
        s.len() > 0 ==> !is_space(s[0]) && !is_space(s.last()),
    ensures
        dots@ == split_on(s, '.'),
{
    lemma_trimmed_of_tight(s);
}

} // verus!
