//! Project names: one class-like word.

use crate::jsmk_regex::matcher::{first_match, pattern_compiles};
use crate::jsmk_regex::regex_wrapper::{fast_regex, RegexWrapper};
use crate::text::{text_of, trim, trimmed};
use vstd::pervasive::unreached;
use vstd::prelude::*;

verus! {

/// The pattern of a project name: an uppercase letter, then letters and
/// digits.
pub const PROJECT_NAME_PATTERN: &'static str = r"[A-Z][A-Za-z0-9]*";

/// The pattern of a text that holds nothing but white space.
pub const ERR_IS_EMPTY_PATTERN: &'static str = r"^\s*$";

/// The pattern of a text whose first visible character is a digit.
pub const ERR_STARTS_WITH_NUMBER_PATTERN: &'static str = r"^\s*[0-9]";

/// The pattern of a text whose first visible character is a lowercase
/// letter.
pub const ERR_STARTS_WITH_LOWERCASE_PATTERN: &'static str = r"^\s*[a-z]";

/// The pattern of a character that a project name cannot hold.
pub const ERR_NOT_ALLOWED_CHAR_PATTERN: &'static str = r"[^a-z|A-Z|\s|0-9]";

/// The pattern of two words with white space between them.
pub const ERR_COMPOUND_NAME_PATTERN: &'static str = r"\S+\s+\S+";

/// A project name that was found valid.
#[derive(Debug)]
pub struct ProjectName(String);

/// Why a text is no project name. Each variant but `IsEmpty` holds the
/// trimmed text.
#[derive(Debug)]
pub enum ProjectNameError {
    /// The text holds nothing but white space.
    IsEmpty,
    /// The text starts with a digit.
    StartsWithNumber(String),
    /// The text starts with a lowercase letter.
    StartsWithLowercase(String),
    /// The text holds more than one word.
    CompoundName(String),
    /// The text holds a character that is not allowed.
    NotAllowedChar(String),
}

/// Which of the five rules a text breaks.
pub struct RuleFindings {
    /// The text holds more than one word.
    pub compound: bool,
    /// The text holds nothing but white space.
    pub empty: bool,
    /// The text starts with a digit.
    pub leading_digit: bool,
    /// The text holds a character that is not allowed.
    pub bad_char: bool,
    /// The text starts with a lowercase letter.
    pub leading_lowercase: bool,
}

impl View for ProjectName {
    type V = Seq<char>;

    closed spec fn view(&self) -> Seq<char> {
        self.0@
    }
}

/// Which of the five rules `sample` breaks: a rule is broken where its
/// pattern matches somewhere in `sample`.
pub open spec fn findings_of(sample: Seq<char>) -> RuleFindings {
    RuleFindings {
        compound: first_match(ERR_COMPOUND_NAME_PATTERN@, sample) is Some,
        empty: first_match(ERR_IS_EMPTY_PATTERN@, sample) is Some,
        leading_digit: first_match(ERR_STARTS_WITH_NUMBER_PATTERN@, sample) is Some,
        bad_char: first_match(ERR_NOT_ALLOWED_CHAR_PATTERN@, sample) is Some,
        leading_lowercase: first_match(ERR_STARTS_WITH_LOWERCASE_PATTERN@, sample) is Some,
    }
}

/// Whether the patterns of the five rules compile.
pub open spec fn rules_compile() -> bool {
    &&& pattern_compiles(ERR_COMPOUND_NAME_PATTERN@)
    &&& pattern_compiles(ERR_IS_EMPTY_PATTERN@)
    &&& pattern_compiles(ERR_STARTS_WITH_NUMBER_PATTERN@)
    &&& pattern_compiles(ERR_NOT_ALLOWED_CHAR_PATTERN@)
    &&& pattern_compiles(ERR_STARTS_WITH_LOWERCASE_PATTERN@)
}

/// Whether `failure` is the failure of `sample`, of which the rules found
/// `findings`: the first rule that is broken, in the order compound name,
/// empty, leading digit, character that is not allowed, leading lowercase
/// letter; with the trimmed sample, but for the empty one. No failure where
/// no rule is broken.
pub open spec fn is_failure_of(
    sample: Seq<char>,
    findings: RuleFindings,
    failure: Option<ProjectNameError>,
) -> bool {
    match failure {
        Some(ProjectNameError::CompoundName(text)) => findings.compound && text@ == trimmed(sample),
        Some(ProjectNameError::IsEmpty) => !findings.compound && findings.empty,
        Some(ProjectNameError::StartsWithNumber(text)) => !findings.compound && !findings.empty
            && findings.leading_digit && text@ == trimmed(sample),
        Some(ProjectNameError::NotAllowedChar(text)) => !findings.compound && !findings.empty
            && !findings.leading_digit && findings.bad_char && text@ == trimmed(sample),
        Some(ProjectNameError::StartsWithLowercase(text)) => !findings.compound && !findings.empty
            && !findings.leading_digit && !findings.bad_char && findings.leading_lowercase
            && text@ == trimmed(sample),
        None => !findings.compound && !findings.empty && !findings.leading_digit
            && !findings.bad_char && !findings.leading_lowercase,
    }
}

impl ProjectNameError {
    /// The failure of `sample`, given which rules it breaks.
    pub fn first_of(sample: &str, findings: RuleFindings) -> (failure: Option<Self>)
        ensures
            is_failure_of(sample@, findings, failure),
    {
        if findings.compound {
            Some(Self::CompoundName(trim(sample).to_owned()))
        } else if findings.empty {
            Some(Self::IsEmpty)
        } else if findings.leading_digit {
            Some(Self::StartsWithNumber(trim(sample).to_owned()))
        } else if findings.bad_char {
            Some(Self::NotAllowedChar(trim(sample).to_owned()))
        } else if findings.leading_lowercase {
            Some(Self::StartsWithLowercase(trim(sample).to_owned()))
        } else {
            None
        }
    }

    /// Holds `sample` to the five rules and returns its failure, if it has
    /// one.
    ///
    /// The patterns of the rules have to compile; [`Self::check`] asks for
    /// nothing.
    pub fn new(sample: &str) -> (failure: Option<Self>)
        requires
            rules_compile(),
        ensures
            is_failure_of(sample@, findings_of(sample@), failure),
    {
        let findings = RuleFindings {
            compound: fast_regex(ERR_COMPOUND_NAME_PATTERN).is_match(sample),
            empty: fast_regex(ERR_IS_EMPTY_PATTERN).is_match(sample),
            leading_digit: fast_regex(ERR_STARTS_WITH_NUMBER_PATTERN).is_match(sample),
            bad_char: fast_regex(ERR_NOT_ALLOWED_CHAR_PATTERN).is_match(sample),
            leading_lowercase: fast_regex(ERR_STARTS_WITH_LOWERCASE_PATTERN).is_match(sample),
        };
        Self::first_of(sample, findings)
    }

    /// Does what [`Self::new`] does, or returns `None` where a pattern of
    /// the rules does not compile.
    pub fn check(sample: &str) -> (r: Option<Option<Self>>)
        ensures
            r is Some == rules_compile(),
            r matches Some(failure) ==> is_failure_of(sample@, findings_of(sample@), failure),
    {
        if patterns_compile() {
            Some(Self::new(sample))
        } else {
            None
        }
    }
}

/// Tests whether the patterns of the five rules compile.
fn patterns_compile() -> (b: bool)
    ensures
        b == rules_compile(),
{
    RegexWrapper::try_from(ERR_COMPOUND_NAME_PATTERN).is_ok() && RegexWrapper::try_from(
        ERR_IS_EMPTY_PATTERN,
    ).is_ok() && RegexWrapper::try_from(ERR_STARTS_WITH_NUMBER_PATTERN).is_ok()
        && RegexWrapper::try_from(ERR_NOT_ALLOWED_CHAR_PATTERN).is_ok() && RegexWrapper::try_from(
        ERR_STARTS_WITH_LOWERCASE_PATTERN,
    ).is_ok()
}

/// Whether `r` is what `value` comes to as a project name: its failure
/// where it breaks a rule, else the first match of the pattern of names in
/// the trimmed text.
pub open spec fn named_as(value: Seq<char>, r: Result<ProjectName, ProjectNameError>) -> bool {
    match r {
        Ok(name) => is_failure_of(value, findings_of(value), None) && Some(name@) == first_match(
            PROJECT_NAME_PATTERN@,
            trimmed(value),
        ),
        Err(e) => is_failure_of(value, findings_of(value), Some(e)),
    }
}

/// Whether `value` can be held to the rules and, where it breaks none, has
/// a name in it.
pub open spec fn can_be_named(value: Seq<char>) -> bool {
    &&& rules_compile()
    &&& pattern_compiles(PROJECT_NAME_PATTERN@)
    &&& is_failure_of(value, findings_of(value), None) ==> first_match(
        PROJECT_NAME_PATTERN@,
        trimmed(value),
    ) is Some
}

impl ProjectName {
    /// The name that was found in a text, or the failure of the text.
    ///
    /// A text without a failure has to have a name in it.
    pub fn from_findings(failure: Option<ProjectNameError>, found: Option<&str>) -> (r: Result<
        Self,
        ProjectNameError,
    >)
        requires
            failure is None ==> found is Some,
        ensures
            match r {
                Ok(name) => failure is None && Some(name@) == text_of(found),
                Err(e) => failure == Some(e),
            },
    {
        match failure {
            Some(e) => Err(e),
            None => match found {
                Some(name) => Ok(Self(name.to_owned())),
                None => unreached(),
            },
        }
    }

    /// Validates `value` as a project name: it is held to the five rules,
    /// and where it breaks none, the name is the first match of
    /// [`PROJECT_NAME_PATTERN`] in the trimmed text.
    ///
    /// The patterns have to compile, and a text that breaks no rule has to
    /// have a name in it; [`Self::parse`] asks for nothing.
    pub fn try_new(value: &str) -> (r: Result<Self, ProjectNameError>)
        requires
            can_be_named(value@),
        ensures
            named_as(value@, r),
    {
        let re = fast_regex(PROJECT_NAME_PATTERN);
        let failure = ProjectNameError::new(value);
        Self::from_findings(failure, re.find(trim(value)))
    }

    /// Validates `value` as [`Self::try_new`] does, or returns `None` where
    /// a pattern does not compile, or where `value` breaks no rule and yet
    /// has no name in it.
    pub fn parse(value: &str) -> (r: Option<Result<Self, ProjectNameError>>)
        ensures
            r is Some == can_be_named(value@),
            r matches Some(named) ==> named_as(value@, named),
    {
        if !patterns_compile() {
            return None;
        }
        match RegexWrapper::try_from(PROJECT_NAME_PATTERN) {
            Ok(re) => {
                if ProjectNameError::new(value).is_none() && re.find(trim(value)).is_none() {
                    None
                } else {
                    Some(Self::try_new(value))
                }
            },
            Err(_) => None,
        }
    }

    /// The name.
    pub fn name(&self) -> (name: &str)
        ensures
            name@ == self@,
    {
        self.0.as_str()
    }
}

} // verus!
