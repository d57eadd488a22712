//! The group of a project: a dotted identifier, with an error of its own.

use crate::jsmk_regex::matcher::{first_match, pattern_compiles};
use crate::jsmk_regex::regex_wrapper::RegexWrapper;
use crate::text::{split_on, trimmed};
use crate::types::dot_notation;
use crate::types::dot_notation::{DotNotation, DOT_SYNTAX_REGEX};
use vstd::prelude::*;

verus! {

/// The group of a project. Each word of its dotted identifier names a
/// subgroup of the word before it.
#[derive(Debug)]
pub struct ProjectGroup(DotNotation);

/// The text that is no project group, with the error of the dotted
/// identifier that it was parsed as.
#[derive(Debug)]
pub struct ParseError {
    /// The text as it came.
    provided: String,
    /// Why the text is no dotted identifier.
    parse_error: dot_notation::ParseError,
}

impl View for ProjectGroup {
    type V = Seq<Seq<char>>;

    closed spec fn view(&self) -> Seq<Seq<char>> {
        self.0@
    }
}

impl ParseError {
    /// The text that was not accepted, as it came.
    pub closed spec fn provided_text(&self) -> Seq<char> {
        self.provided@
    }

    /// The text that the inner error holds.
    pub closed spec fn inner_text(&self) -> Seq<char> {
        self.parse_error@
    }

    /// The error that holds `provided`, beside the error of the dotted
    /// identifier.
    pub fn new(provided: &str, parse_error: dot_notation::ParseError) -> (e: Self)
        ensures
            e.provided_text() == provided@,
            e.inner_text() == parse_error@,
    {
        Self { provided: provided.to_owned(), parse_error }
    }

    /// The text that was not accepted, as it came.
    pub fn provided(&self) -> (text: &str)
        ensures
            text@ == self.provided_text(),
    {
        self.provided.as_str()
    }

    /// Why the text is no dotted identifier.
    pub fn parse_error(&self) -> (e: &dot_notation::ParseError)
        ensures
            e@ == self.inner_text(),
    {
        &self.parse_error
    }
}

/// Whether `r` is what `s` parses to, where `found` is the first match of
/// the pattern of dotted identifiers in `s`: the group of the words between
/// the dots of the trimmed text where the match is the whole of `s`, else an
/// error that holds `s` as it came, beside the error of the dotted
/// identifier, which holds `s` too.
pub open spec fn parsed_as(
    s: Seq<char>,
    found: Option<Seq<char>>,
    r: Result<ProjectGroup, ParseError>,
) -> bool {
    match r {
        Ok(group) => found == Some(s) && group@ == split_on(trimmed(s), '.'),
        Err(e) => found != Some(s) && e.provided_text() == s && e.inner_text() == s,
    }
}

impl ProjectGroup {
    /// Makes a project group of a dotted identifier that `s` was parsed
    /// into, or wraps the error together with `s`.
    pub fn from_dots(s: &str, dots: Result<DotNotation, dot_notation::ParseError>) -> (r: Result<
        Self,
        ParseError,
    >)
        ensures
            match (dots, r) {
                (Ok(d), Ok(group)) => group@ == d@,
                (Err(inner), Err(e)) => e.provided_text() == s@ && e.inner_text() == inner@,
                _ => false,
            },
    {
        match dots {
            Ok(d) => Ok(Self(d)),
            Err(e) => Err(ParseError::new(s, e)),
        }
    }

    /// Parses `s` as a project group, which is written as a dotted
    /// identifier is.
    ///
    /// The pattern of dotted identifiers has to compile; [`Self::parse`]
    /// asks for nothing.
    pub fn try_from(s: &str) -> (r: Result<Self, ParseError>)
        requires
            pattern_compiles(DOT_SYNTAX_REGEX@),
        ensures
            parsed_as(s@, first_match(DOT_SYNTAX_REGEX@, s@), r),
    {
        Self::from_dots(s, DotNotation::try_from(s))
    }

    /// Parses `s` as [`Self::try_from`] does, or returns `None` where the
    /// pattern of dotted identifiers does not compile.
    pub fn parse(s: &str) -> (r: Option<Result<Self, ParseError>>)
        ensures
            r is Some == pattern_compiles(DOT_SYNTAX_REGEX@),
            r matches Some(parsed) ==> parsed_as(s@, first_match(DOT_SYNTAX_REGEX@, s@), parsed),
    {
        if RegexWrapper::try_from(DOT_SYNTAX_REGEX).is_ok() {
            Some(Self::try_from(s))
        } else {
            None
        }
    }

    /// The dotted identifier of the group.
    pub fn dots(&self) -> (d: &DotNotation)
        ensures
            d@ == self@,
    {
        &self.0
    }
}

} // verus!
