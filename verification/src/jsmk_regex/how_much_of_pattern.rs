//! How often a pattern may repeat.

use crate::text::{decimal, decimal_text};
use std::ops::{Bound, Range, RangeBounds, RangeFrom, RangeFull, RangeInclusive, RangeTo, RangeToInclusive};
use vstd::prelude::*;
use vstd::string::StringExecFns;

verus! {

/// `std::ops::RangeFrom`, with its public field.
#[verifier::external_type_specification]
#[verifier::reject_recursive_types(Idx)]
pub struct ExRangeFrom<Idx>(RangeFrom<Idx>);

/// `std::ops::RangeTo`, with its public field.
#[verifier::external_type_specification]
#[verifier::reject_recursive_types(Idx)]
pub struct ExRangeTo<Idx>(RangeTo<Idx>);

/// `std::ops::RangeToInclusive`, with its public field.
#[verifier::external_type_specification]
#[verifier::reject_recursive_types(Idx)]
pub struct ExRangeToInclusive<Idx>(RangeToInclusive<Idx>);

/// `std::ops::RangeFull`.
#[verifier::external_type_specification]
pub struct ExRangeFull(RangeFull);

/// One end of a range of repetition counts.
#[derive(Clone, Copy, Debug, PartialEq, Eq)]
pub enum Edge {
    /// The range reaches this count.
    Included(usize),
    /// The range stops just short of this count.
    Excluded(usize),
    /// The range has no limit on this side.
    Unbounded,
}

/// The range types that describe a repetition: the six range types of the
/// standard library, over `usize`.
pub trait Sealed {
    /// Where the range starts.
    spec fn start_edge(&self) -> Edge;

    /// Where the range ends.
    spec fn end_edge(&self) -> Edge;

    /// Where the range starts.
    fn lower(&self) -> (e: Edge)
        ensures
            e == self.start_edge(),
    ;

    /// Where the range ends.
    fn upper(&self) -> (e: Edge)
        ensures
            e == self.end_edge(),
    ;
}

impl Sealed for Range<usize> {
    open spec fn start_edge(&self) -> Edge {
        Edge::Included(self.start)
    }

    open spec fn end_edge(&self) -> Edge {
        Edge::Excluded(self.end)
    }

    fn lower(&self) -> (e: Edge) {
        Edge::Included(self.start)
    }

    fn upper(&self) -> (e: Edge) {
        Edge::Excluded(self.end)
    }
}

impl Sealed for RangeFrom<usize> {
    open spec fn start_edge(&self) -> Edge {
        Edge::Included(self.start)
    }

    open spec fn end_edge(&self) -> Edge {
        Edge::Unbounded
    }

    fn lower(&self) -> (e: Edge) {
        Edge::Included(self.start)
    }

    fn upper(&self) -> (e: Edge) {
        Edge::Unbounded
    }
}

impl Sealed for RangeFull {
    open spec fn start_edge(&self) -> Edge {
        Edge::Unbounded
    }

    open spec fn end_edge(&self) -> Edge {
        Edge::Unbounded
    }

    fn lower(&self) -> (e: Edge) {
        Edge::Unbounded
    }

    fn upper(&self) -> (e: Edge) {
        Edge::Unbounded
    }
}

/// Calls `RangeBounds::end_bound` on an inclusive range: the end is
/// included, unless the range was iterated to exhaustion, after which it is
/// excluded.
#[verifier::external_body]
fn inclusive_end(r: &RangeInclusive<usize>) -> (e: Edge)
    ensures
        e == (if r@.exhausted {
            Edge::Excluded(r@.end)
        } else {
            Edge::Included(r@.end)
        }),
{
    match r.end_bound() {
        Bound::Included(x) => Edge::Included(*x),
        Bound::Excluded(x) => Edge::Excluded(*x),
        Bound::Unbounded => Edge::Unbounded,
    }
}

/// Calls `RangeBounds::start_bound` on an inclusive range, whose start is
/// always included.
#[verifier::external_body]
fn inclusive_start(r: &RangeInclusive<usize>) -> (e: Edge)
    ensures
        e == Edge::Included(r@.start),
{
    match r.start_bound() {
        Bound::Included(x) => Edge::Included(*x),
        Bound::Excluded(x) => Edge::Excluded(*x),
        Bound::Unbounded => Edge::Unbounded,
    }
}

impl Sealed for RangeInclusive<usize> {
    open spec fn start_edge(&self) -> Edge {
        Edge::Included(self@.start)
    }

    open spec fn end_edge(&self) -> Edge {
        if self@.exhausted {
            Edge::Excluded(self@.end)
        } else {
            Edge::Included(self@.end)
        }
    }

    fn lower(&self) -> (e: Edge) {
        inclusive_start(self)
    }

    fn upper(&self) -> (e: Edge) {
        inclusive_end(self)
    }
}

impl Sealed for RangeTo<usize> {
    open spec fn start_edge(&self) -> Edge {
        Edge::Unbounded
    }

    open spec fn end_edge(&self) -> Edge {
        Edge::Excluded(self.end)
    }

    fn lower(&self) -> (e: Edge) {
        Edge::Unbounded
    }

    fn upper(&self) -> (e: Edge) {
        Edge::Excluded(self.end)
    }
}

impl Sealed for RangeToInclusive<usize> {
    open spec fn start_edge(&self) -> Edge {
        Edge::Unbounded
    }

    open spec fn end_edge(&self) -> Edge {
        Edge::Included(self.end)
    }

    fn lower(&self) -> (e: Edge) {
        Edge::Unbounded
    }

    fn upper(&self) -> (e: Edge) {
        Edge::Included(self.end)
    }
}

/// The least count in a range that starts at `start`.
pub open spec fn least_count(start: Edge) -> int {
    match start {
        Edge::Included(x) => x as int,
        Edge::Excluded(x) => x - 1,
        Edge::Unbounded => 0,
    }
}

/// The greatest count in a range that ends at `end`, if it has one.
pub open spec fn greatest_count(end: Edge) -> Option<int> {
    match end {
        Edge::Included(x) => Some(x as int),
        Edge::Excluded(x) => Some(x - 1),
        Edge::Unbounded => None,
    }
}

/// Whether the two edges describe a range that holds at least one count.
pub open spec fn holds_a_count(start: Edge, end: Edge) -> bool {
    &&& 0 <= least_count(start)
    &&& greatest_count(end) matches Some(most) ==> least_count(start) <= most
}

/// How many times a pattern may repeat, as the suffixes of a regular
/// expression say it.
#[derive(Clone, Debug, PartialEq, Eq)]
pub enum HowMuchOfPattern {
    /// At most once (`a?`).
    ZeroOrOne,
    /// Any number of times (`a*`).
    ZeroOrMore,
    /// At least once (`a+`).
    OneOrMore,
    /// Exactly this many times (`a{N}`).
    Exactly(usize),
    /// At least this many times (`a{N,}`).
    AtLeast(usize),
    /// At most this many times (`a{0,N}`).
    Until(usize),
    /// Between the first and the second count, both included (`a{MIN,MAX}`).
    Between(usize, usize),
}

impl HowMuchOfPattern {
    /// A `Between` names its counts in order.
    pub open spec fn wf(&self) -> bool {
        match self {
            Self::Between(min, max) => *min <= *max,
            _ => true,
        }
    }

    /// The least number of repetitions that is allowed.
    pub open spec fn least(&self) -> int {
        match self {
            Self::ZeroOrOne => 0,
            Self::ZeroOrMore => 0,
            Self::OneOrMore => 1,
            Self::Exactly(n) => *n as int,
            Self::AtLeast(n) => *n as int,
            Self::Until(_) => 0,
            Self::Between(min, _) => *min as int,
        }
    }

    /// The greatest number of repetitions that is allowed, if there is a
    /// limit.
    pub open spec fn most(&self) -> Option<int> {
        match self {
            Self::ZeroOrOne => Some(1),
            Self::ZeroOrMore => None,
            Self::OneOrMore => None,
            Self::Exactly(n) => Some(*n as int),
            Self::AtLeast(_) => None,
            Self::Until(n) => Some(*n as int),
            Self::Between(_, max) => Some(*max as int),
        }
    }

    /// The suffix that says this repetition in a regular expression.
    pub open spec fn suffix(&self) -> Seq<char> {
        match self {
            Self::ZeroOrOne => seq!['?'],
            Self::ZeroOrMore => seq!['*'],
            Self::OneOrMore => seq!['+'],
            Self::Exactly(n) => seq!['{'] + decimal_text(*n as nat) + seq!['}'],
            Self::AtLeast(n) => seq!['{'] + decimal_text(*n as nat) + seq![',', '}'],
            Self::Until(n) => seq!['{', '0', ','] + decimal_text(*n as nat) + seq!['}'],
            Self::Between(min, max) => seq!['{'] + decimal_text(*min as nat) + seq![',']
                + decimal_text(*max as nat) + seq!['}'],
        }
    }

    /// The repetition for a range of counts that starts at `least` and ends
    /// at `most`, or has no end: the first row that fits, of seven.
    pub open spec fn of_counts(least: int, most: Option<int>) -> Self {
        if least == 0 && most == Some(1int) {
            Self::ZeroOrOne
        } else if least == 0 && most is None {
            Self::ZeroOrMore
        } else if least == 1 && most is None {
            Self::OneOrMore
        } else if most == Some(least) {
            Self::Exactly(least as usize)
        } else if most is None {
            Self::AtLeast(least as usize)
        } else if least == 0 {
            Self::Until(most->0 as usize)
        } else {
            Self::Between(least as usize, most->0 as usize)
        }
    }

    /// Writes the suffix that says this repetition in a regular expression.
    pub fn repr(&self) -> (r: String)
        ensures
            r@ == self.suffix(),
    {
        proof {
            reveal_strlit("?");
            reveal_strlit("*");
            reveal_strlit("+");
            reveal_strlit("{");
            reveal_strlit("}");
            reveal_strlit(",}");
            reveal_strlit("{0,");
            reveal_strlit(",");
        }
        match self {
            Self::ZeroOrOne => {
                let r = "?".to_owned();
                assert(r@ =~= self.suffix());
                r
            },
            Self::ZeroOrMore => {
                let r = "*".to_owned();
                assert(r@ =~= self.suffix());
                r
            },
            Self::OneOrMore => {
                let r = "+".to_owned();
                assert(r@ =~= self.suffix());
                r
            },
            Self::Exactly(n) => {
                let mut r = "{".to_owned();
                r.append(decimal(*n).as_str());
                r.append("}");
                assert(r@ =~= self.suffix());
                r
            },
            Self::AtLeast(n) => {
                let mut r = "{".to_owned();
                r.append(decimal(*n).as_str());
                r.append(",}");
                assert(r@ =~= self.suffix());
                r
            },
            Self::Until(n) => {
                let mut r = "{0,".to_owned();
                r.append(decimal(*n).as_str());
                r.append("}");
                assert(r@ =~= self.suffix());
                r
            },
            Self::Between(min, max) => {
                let mut r = "{".to_owned();
                r.append(decimal(*min).as_str());
                r.append(",");
                r.append(decimal(*max).as_str());
                r.append("}");
                assert(r@ =~= self.suffix());
                r
            },
        }
    }

    /// The repetition that a range of counts describes.
    ///
    /// A range that holds no count describes no repetition, and is not
    /// accepted.
    pub fn from<T: Sealed>(value: T) -> (r: Self)
        requires
            holds_a_count(value.start_edge(), value.end_edge()),
        ensures
            r == Self::of_counts(
                least_count(value.start_edge()),
                greatest_count(value.end_edge()),
            ),
            r.wf(),
    {
        let least: usize = match value.lower() {
            Edge::Included(x) => x,
            Edge::Excluded(x) => x - 1,
            Edge::Unbounded => 0,
        };
        let most: Option<usize> = match value.upper() {
            Edge::Included(x) => Some(x),
            Edge::Excluded(x) => Some(x - 1),
            Edge::Unbounded => None,
        };
        match most {
            Some(most) => {
                if least == 0 && most == 1 {
                    Self::ZeroOrOne
                } else if least == most {
                    Self::Exactly(least)
                } else if least == 0 {
                    Self::Until(most)
                } else {
                    Self::Between(least, most)
                }
            },
            None => {
                if least == 0 {
                    Self::ZeroOrMore
                } else if least == 1 {
                    Self::OneOrMore
                } else {
                    Self::AtLeast(least)
                }
            },
        }
    }
}

/// The repetition made from a range that holds a count allows exactly the
/// counts of that range: it starts where the range starts and ends where the
/// range ends.
pub proof fn lemma_of_counts_allows_the_range(least: int, most: Option<int>)
    requires
        0 <= least <= usize::MAX,
        most matches Some(m) ==> least <= m <= usize::MAX,
    ensures
        HowMuchOfPattern::of_counts(least, most).least() == least,
        HowMuchOfPattern::of_counts(least, most).most() == most,
        HowMuchOfPattern::of_counts(least, most).wf(),
{
}

} // verus!
