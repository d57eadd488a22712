//! Version-lock expressions: a lower bound, an exact version or a range of
//! versions, and the order of versions that ranges are held to.

use crate::jsmk_regex::matcher::{first_match, pattern_compiles};
use crate::jsmk_regex::regex_wrapper::{fast_regex, RegexWrapper};
use crate::text::{
    after_prefix, decimal, decimal_text, is_digit, lemma_decimal_text, lemma_parse_decimal_text,
    lemma_split_on, lemma_split_on_append, lemma_split_on_single, parse_u16, parsed_u16,
    same_text, split, split_at_first, split_on, split_once, strip_prefix, text_of, trim, trimmed,
    views,
};
use std::cmp::Ordering;
use vstd::pervasive::unreached;
use vstd::prelude::*;
use vstd::std_specs::cmp::PartialOrdSpecImpl;
use vstd::string::StringExecFns;

verus! {

/// The pattern of a version-lock expression: a version number with an
/// optional prefix `^`, `^=` or `=`, or two version numbers around `<=>`,
/// with white space allowed around the whole. A version number is one to
/// three groups of digits, joined by dots.
pub const LOCK_VERSION_REGEX: &'static str =
    r"\s*(([0-9]+(\.[0-9]+){0,2}<=>[0-9]+(\.[0-9]+){0,2})|((\^|\^=|=)?[0-9]+(\.[0-9]+){0,2}))\s*";

/// A version number. A part that is absent is not constrained; it is not
/// zero.
#[derive(Debug, PartialEq)]
pub struct LockVersion {
    /// The major part (`<MAJOR>._._`).
    pub major: u16,
    /// The minor part (`_.<MINOR>._`).
    pub minor: Option<u16>,
    /// The patch part (`_._.<PATCH>`).
    pub patch: Option<u16>,
}

/// What a version-lock expression asks of a version.
#[derive(Debug)]
pub enum LockVersionVariant {
    /// The version is this one or a later one.
    GreaterOrEquals(LockVersion),
    /// The version is this one.
    StrictlyEquals(LockVersion),
    /// The version lies between the two, both included.
    InRange {
        /// The least version.
        left: LockVersion,
        /// The greatest version.
        right: LockVersion,
    },
}

/// Why a text is no version-lock expression.
#[derive(Debug)]
pub enum ParseError {
    /// The pattern does not match the whole of the text, which is held as it
    /// came.
    UnparseableRegex(String),
    /// The text is a range whose left version is greater than its right one.
    LeftValueGreaterThanRight {
        /// The left version.
        left: LockVersion,
        /// The right version.
        right: LockVersion,
    },
}

/// What one position decides about the order of two versions, if it decides
/// anything: two numbers that differ are ordered as numbers, and a number
/// above zero is greater than an absent part. A zero and an absent part
/// decide nothing, and neither do two equal numbers or two absent parts.
pub open spec fn position_order(l: Option<u16>, r: Option<u16>) -> Option<Ordering> {
    match (l, r) {
        (Some(a), None) => if a > 0 {
            Some(Ordering::Greater)
        } else {
            None
        },
        (None, Some(b)) => if b > 0 {
            Some(Ordering::Less)
        } else {
            None
        },
        (Some(a), Some(b)) => if a < b {
            Some(Ordering::Less)
        } else if a > b {
            Some(Ordering::Greater)
        } else {
            None
        },
        (None, None) => None,
    }
}

/// The order of two versions: what the first position that decides says, of
/// major, minor and patch; equal where none decides.
pub open spec fn version_order(a: LockVersion, b: LockVersion) -> Ordering {
    match position_order(Some(a.major), Some(b.major)) {
        Some(o) => o,
        None => match position_order(a.minor, b.minor) {
            Some(o) => o,
            None => match position_order(a.patch, b.patch) {
                Some(o) => o,
                None => Ordering::Equal,
            },
        },
    }
}

/// Whether `a` is greater than `b` in the order of versions.
pub open spec fn exceeds(a: LockVersion, b: LockVersion) -> bool {
    version_order(a, b) == Ordering::Greater
}

/// The order of two triples of numbers, by their first difference.
pub open spec fn triple_order(a: (u16, u16, u16), b: (u16, u16, u16)) -> Ordering {
    if a.0 < b.0 {
        Ordering::Less
    } else if a.0 > b.0 {
        Ordering::Greater
    } else if a.1 < b.1 {
        Ordering::Less
    } else if a.1 > b.1 {
        Ordering::Greater
    } else if a.2 < b.2 {
        Ordering::Less
    } else if a.2 > b.2 {
        Ordering::Greater
    } else {
        Ordering::Equal
    }
}

/// The parts of a version, with zero for a part that is absent.
pub open spec fn zero_filled(v: LockVersion) -> (u16, u16, u16) {
    (
        v.major,
        match v.minor {
            Some(minor) => minor,
            None => 0,
        },
        match v.patch {
            Some(patch) => patch,
            None => 0,
        },
    )
}

/// Two versions with all three parts are ordered as the triples of their
/// parts are.
pub proof fn lemma_full_versions_order_as_triples(a: LockVersion, b: LockVersion)
    requires
        a.minor is Some,
        a.patch is Some,
        b.minor is Some,
        b.patch is Some,
    ensures
        version_order(a, b) == triple_order(
            (a.major, a.minor->0, a.patch->0),
            (b.major, b.minor->0, b.patch->0),
        ),
{
}

/// Any two versions are ordered as their parts are once zero stands for
/// each absent part: an absent part and a zero never tell two versions
/// apart.
pub proof fn lemma_versions_order_as_zero_filled(a: LockVersion, b: LockVersion)
    ensures
        version_order(a, b) == triple_order(zero_filled(a), zero_filled(b)),
{
}

/// What one position decides about the order of two versions.
fn decide(l: Option<u16>, r: Option<u16>) -> (o: Option<Ordering>)
    ensures
        o == position_order(l, r),
{
    match (l, r) {
        (Some(a), None) => if a > 0 {
            Some(Ordering::Greater)
        } else {
            None
        },
        (None, Some(b)) => if b > 0 {
            Some(Ordering::Less)
        } else {
            None
        },
        (Some(a), Some(b)) => if a < b {
            Some(Ordering::Less)
        } else if a > b {
            Some(Ordering::Greater)
        } else {
            None
        },
        (None, None) => None,
    }
}

impl PartialOrd for LockVersion {
    /// Compares two versions part by part; the first position that decides
    /// gives the order.
    fn partial_cmp(&self, other: &Self) -> (r: Option<Ordering>) {
        match decide(Some(self.major), Some(other.major)) {
            Some(o) => Some(o),
            None => match decide(self.minor, other.minor) {
                Some(o) => Some(o),
                None => match decide(self.patch, other.patch) {
                    Some(o) => Some(o),
                    None => Some(Ordering::Equal),
                },
            },
        }
    }
}

impl PartialOrdSpecImpl for LockVersion {
    open spec fn obeys_partial_cmp_spec() -> bool {
        true
    }

    open spec fn partial_cmp_spec(&self, other: &Self) -> Option<Ordering> {
        Some(version_order(*self, *other))
    }
}

/// The version that `s` denotes: its groups between dots, of which the
/// first is the major part, the second the minor part and the third the
/// patch part, each a 16-bit number in base ten. Groups after the third are
/// not read. `None` where one of the groups that are read is no such number.
pub open spec fn version_of(s: Seq<char>) -> Option<LockVersion> {
    let groups = split_on(s, '.');
    let major = parsed_u16(groups[0]);
    let minor = if groups.len() > 1 {
        parsed_u16(groups[1])
    } else {
        None
    };
    let patch = if groups.len() > 2 {
        parsed_u16(groups[2])
    } else {
        None
    };
    if major is None || (groups.len() > 1 && minor is None) || (groups.len() > 2 && patch is None) {
        None
    } else {
        Some(LockVersion { major: major->0, minor, patch })
    }
}

/// The text of a version: its parts in base ten, joined by dots, up to the
/// first part that is absent.
pub open spec fn version_text(v: LockVersion) -> Seq<char> {
    match v.minor {
        None => decimal_text(v.major as nat),
        Some(minor) => match v.patch {
            None => decimal_text(v.major as nat) + seq!['.'] + decimal_text(minor as nat),
            Some(patch) => decimal_text(v.major as nat) + seq!['.'] + decimal_text(minor as nat)
                + seq!['.'] + decimal_text(patch as nat),
        },
    }
}

/// The text of a number holds no dot.
proof fn lemma_decimal_text_has_no_dot(n: u16)
    ensures
        forall|i: int| 0 <= i < decimal_text(n as nat).len() ==> decimal_text(n as nat)[i] != '.',
{
    lemma_decimal_text(n as nat);
    assert forall|i: int| 0 <= i < decimal_text(n as nat).len() implies decimal_text(n as nat)[i]
        != '.' by {
        assert(is_digit(decimal_text(n as nat)[i]));
    }
}

/// A version is read back from its own text, unless it has a patch part
/// without a minor part, which its text leaves out.
pub proof fn lemma_written_version_is_read_back(v: LockVersion)
    requires
        v.minor is None ==> v.patch is None,
    ensures
        version_of(version_text(v)) == Some(v),
{
    let a = decimal_text(v.major as nat);
    lemma_decimal_text_has_no_dot(v.major);
    lemma_parse_decimal_text(v.major);
    lemma_split_on_single(a, '.');
    match v.minor {
        None => {},
        Some(minor) => {
            let b = decimal_text(minor as nat);
            lemma_decimal_text_has_no_dot(minor);
            lemma_parse_decimal_text(minor);
            lemma_split_on_append(a, b, '.');
            assert(a + seq!['.'] + b =~= a.push('.') + b);
            match v.patch {
                None => {},
                Some(patch) => {
                    let c = decimal_text(patch as nat);
                    lemma_decimal_text_has_no_dot(patch);
                    lemma_parse_decimal_text(patch);
                    lemma_split_on_append(a.push('.') + b, c, '.');
                    assert(a + seq!['.'] + b + seq!['.'] + c =~= (a.push('.') + b).push('.') + c);
                },
            }
        },
    }
}

impl LockVersion {
    /// Reads a version from its text, if the text denotes one.
    pub fn parse(value: &str) -> (r: Option<Self>)
        ensures
            r == version_of(value@),
    {
        let groups = split(value, '.');
        proof {
            lemma_split_on(value@, '.');
            assert(views(groups@)[0] == groups@[0]@);
            if groups.len() > 1 {
                assert(views(groups@)[1] == groups@[1]@);
            }
            if groups.len() > 2 {
                assert(views(groups@)[2] == groups@[2]@);
            }
        }
        let major = match parse_u16(groups[0].as_str()) {
            Some(major) => major,
            None => {
                return None;
            },
        };
        let minor = if groups.len() > 1 {
            match parse_u16(groups[1].as_str()) {
                Some(minor) => Some(minor),
                None => {
                    return None;
                },
            }
        } else {
            None
        };
        let patch = if groups.len() > 2 {
            match parse_u16(groups[2].as_str()) {
                Some(patch) => Some(patch),
                None => {
                    return None;
                },
            }
        } else {
            None
        };
        Some(Self { major, minor, patch })
    }

    /// Reads a version from a text that denotes one.
    pub fn from(value: &str) -> (r: Self)
        requires
            version_of(value@) is Some,
        ensures
            Some(r) == version_of(value@),
    {
        match Self::parse(value) {
            Some(version) => version,
            None => unreached(),
        }
    }

    /// Writes the version: its parts in base ten, joined by dots, up to the
    /// first part that is absent.
    pub fn to_string(&self) -> (r: String)
        ensures
            r@ == version_text(*self),
    {
        proof {
            reveal_strlit(".");
        }
        let mut text = decimal(usize::from(self.major));
        if let Some(minor) = self.minor {
            text.append(".");
            text.append(decimal(usize::from(minor)).as_str());
            if let Some(patch) = self.patch {
                text.append(".");
                text.append(decimal(usize::from(patch)).as_str());
            }
        }
        assert(text@ =~= version_text(*self));
        text
    }
}

/// The three ways to read a version-lock expression, with the texts of the
/// versions it names.
pub enum Reading {
    /// A version, after `^` or `^=` or without a prefix.
    AtLeast(Seq<char>),
    /// A version after `=`.
    Exactly(Seq<char>),
    /// Two versions around the first `<=>`.
    Range(Seq<char>, Seq<char>),
}

/// How the trimmed text `m` is read. The prefixes come first; the separator
/// of a range is looked for only in a text without a prefix.
pub open spec fn reading_of(m: Seq<char>) -> Reading {
    match after_prefix(m, seq!['^', '=']) {
        Some(rest) => Reading::AtLeast(rest),
        None => match after_prefix(m, seq!['^']) {
            Some(rest) => Reading::AtLeast(rest),
            None => match after_prefix(m, seq!['=']) {
                Some(rest) => Reading::Exactly(rest),
                None => match split_at_first(m, seq!['<', '=', '>']) {
                    Some(sides) => Reading::Range(sides.0, sides.1),
                    None => Reading::AtLeast(m),
                },
            },
        },
    }
}

/// What the trimmed text `m` asks of a version, with the order of a range
/// left aside; `None` where a version that `m` names cannot be read.
pub open spec fn constraint_of(m: Seq<char>) -> Option<LockVersionVariant> {
    match reading_of(m) {
        Reading::AtLeast(text) => match version_of(text) {
            Some(version) => Some(LockVersionVariant::GreaterOrEquals(version)),
            None => None,
        },
        Reading::Exactly(text) => match version_of(text) {
            Some(version) => Some(LockVersionVariant::StrictlyEquals(version)),
            None => None,
        },
        Reading::Range(l, r) => match (version_of(l), version_of(r)) {
            (Some(left), Some(right)) => Some(LockVersionVariant::InRange { left, right }),
            _ => None,
        },
    }
}

/// Whether `r` is what `s` parses to, where `found` is the first match of
/// the pattern in `s`.
///
/// Where the match is not the whole of `s`, `r` is the error that holds `s`
/// as it came. Else `r` goes by what the trimmed text asks: a range whose
/// left version is greater than its right one is the error that holds both
/// versions, and anything else is accepted as it is read.
pub open spec fn parsed_as(
    s: Seq<char>,
    found: Option<Seq<char>>,
    r: Result<LockVersionVariant, ParseError>,
) -> bool {
    let read = constraint_of(trimmed(s));
    match r {
        Ok(LockVersionVariant::InRange { left, right }) => found == Some(s) && read == Some(
            LockVersionVariant::InRange { left, right },
        ) && !exceeds(left, right),
        Ok(constraint) => found == Some(s) && read == Some(constraint),
        Err(ParseError::UnparseableRegex(text)) => found != Some(s) && text@ == s,
        Err(ParseError::LeftValueGreaterThanRight { left, right }) => found == Some(s) && read
            == Some(LockVersionVariant::InRange { left, right }) && exceeds(left, right),
    }
}

impl LockVersionVariant {
    /// Reads what the trimmed text `m` asks of a version, with the order of
    /// a range left aside.
    pub fn read(m: &str) -> (r: Option<Self>)
        ensures
            r == constraint_of(m@),
    {
        proof {
            reveal_strlit("^=");
            reveal_strlit("^");
            reveal_strlit("=");
            reveal_strlit("<=>");
            assert("^="@ =~= seq!['^', '=']);
            assert("^"@ =~= seq!['^']);
            assert("="@ =~= seq!['=']);
            assert("<=>"@ =~= seq!['<', '=', '>']);
        }
        if let Some(rest) = strip_prefix(m, "^=") {
            match LockVersion::parse(rest) {
                Some(version) => Some(Self::GreaterOrEquals(version)),
                None => None,
            }
        } else if let Some(rest) = strip_prefix(m, "^") {
            match LockVersion::parse(rest) {
                Some(version) => Some(Self::GreaterOrEquals(version)),
                None => None,
            }
        } else if let Some(rest) = strip_prefix(m, "=") {
            match LockVersion::parse(rest) {
                Some(version) => Some(Self::StrictlyEquals(version)),
                None => None,
            }
        } else if let Some((l, r)) = split_once(m, "<=>") {
            match (LockVersion::parse(l), LockVersion::parse(r)) {
                (Some(left), Some(right)) => Some(Self::InRange { left, right }),
                _ => None,
            }
        } else {
            match LockVersion::parse(m) {
                Some(version) => Some(Self::GreaterOrEquals(version)),
                None => None,
            }
        }
    }

    /// Parses `value`, given the first match of the pattern in it.
    ///
    /// Where the match is the whole of `value`, the versions that the
    /// trimmed text names have to be readable.
    pub fn from_match(value: &str, found: Option<&str>) -> (r: Result<Self, ParseError>)
        requires
            text_of(found) == Some(value@) ==> constraint_of(trimmed(value@)) is Some,
        ensures
            parsed_as(value@, text_of(found), r),
    {
        let whole = match found {
            Some(m) => same_text(m, value),
            None => false,
        };
        if !whole {
            return Err(ParseError::UnparseableRegex(value.to_owned()));
        }
        match Self::read(trim(value)) {
            Some(Self::InRange { left, right }) => {
                if left > right {
                    Err(ParseError::LeftValueGreaterThanRight { left, right })
                } else {
                    Ok(Self::InRange { left, right })
                }
            },
            Some(constraint) => Ok(constraint),
            None => unreached(),
        }
    }

    /// Parses `value` as a version-lock expression: the first match of
    /// [`LOCK_VERSION_REGEX`] in `value` has to be the whole of `value`.
    ///
    /// The pattern has to compile, and where it matches the whole of
    /// `value`, the versions that the trimmed text names have to be
    /// readable; [`Self::parse`] asks for nothing.
    pub fn try_from(value: &str) -> (r: Result<Self, ParseError>)
        requires
            pattern_compiles(LOCK_VERSION_REGEX@),
            first_match(LOCK_VERSION_REGEX@, value@) == Some(value@) ==> constraint_of(
                trimmed(value@),
            ) is Some,
        ensures
            parsed_as(value@, first_match(LOCK_VERSION_REGEX@, value@), r),
    {
        let re = fast_regex(LOCK_VERSION_REGEX);
        Self::from_match(value, re.find(value))
    }

    /// Parses `value` as [`Self::try_from`] does, or returns `None` where
    /// the pattern does not compile, or matches the whole of a text that
    /// names a version that cannot be read.
    pub fn parse(value: &str) -> (r: Option<Result<Self, ParseError>>)
        ensures
            r is Some == (pattern_compiles(LOCK_VERSION_REGEX@) && (first_match(
                LOCK_VERSION_REGEX@,
                value@,
            ) == Some(value@) ==> constraint_of(trimmed(value@)) is Some)),
            r matches Some(parsed) ==> parsed_as(
                value@,
                first_match(LOCK_VERSION_REGEX@, value@),
                parsed,
            ),
    {
        match RegexWrapper::try_from(LOCK_VERSION_REGEX) {
            Ok(re) => {
                if re.matches_whole(value) && Self::read(trim(value)).is_none() {
                    None
                } else {
                    Some(Self::try_from(value))
                }
            },
            Err(_) => None,
        }
    }
}

} // verus!
