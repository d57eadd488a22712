//! Assembling a pattern text step by step.

use crate::jsmk_regex::how_much_of_pattern::{
    greatest_count, holds_a_count, least_count, HowMuchOfPattern, Sealed,
};
use crate::jsmk_regex::matcher::pattern_compiles;
use crate::jsmk_regex::regex_wrapper::RegexWrapper;
use vstd::prelude::*;
use vstd::string::StringExecFns;

verus! {

/// Builds a pattern text from a base pattern, an optional repetition and an
/// optional tolerance for surrounding white space.
#[derive(Clone, Debug)]
pub struct RegexBuilder {
    /// The base pattern.
    pattern: String,
    /// How often the base pattern may repeat.
    times: Option<HowMuchOfPattern>,
    /// Whether white space may surround the pattern.
    leading_spaces: bool,
}

/// What a [`RegexBuilder`] holds.
pub struct RegexBuilderView {
    /// The base pattern.
    pub pattern: Seq<char>,
    /// How often the base pattern may repeat.
    pub times: Option<HowMuchOfPattern>,
    /// Whether white space may surround the pattern.
    pub leading_spaces: bool,
}

/// The pattern text `\s*`, which matches any run of white space.
pub open spec fn any_spaces() -> Seq<char> {
    seq!['\\', 's', '*']
}

impl RegexBuilderView {
    /// The base pattern with its repetition: the base pattern as it is where
    /// no repetition is set, else the base pattern as a group, followed by
    /// the suffix of the repetition.
    pub open spec fn repeated(self) -> Seq<char> {
        match self.times {
            Some(times) => seq!['('] + self.pattern + seq![')'] + times.suffix(),
            None => self.pattern,
        }
    }

    /// The pattern text that is compiled: the repeated pattern, between two
    /// runs of white space where they are tolerated.
    pub open spec fn assembled(self) -> Seq<char> {
        if self.leading_spaces {
            any_spaces() + self.repeated() + any_spaces()
        } else {
            self.repeated()
        }
    }
}

impl View for RegexBuilder {
    type V = RegexBuilderView;

    closed spec fn view(&self) -> RegexBuilderView {
        RegexBuilderView {
            pattern: self.pattern@,
            times: self.times,
            leading_spaces: self.leading_spaces,
        }
    }
}

impl Default for RegexBuilder {
    /// A builder with an empty base pattern, no repetition and no tolerance
    /// for white space.
    fn default() -> (r: Self)
        ensures
            r@ == (RegexBuilderView { pattern: Seq::empty(), times: None, leading_spaces: false }),
    {
        Self { pattern: String::new(), times: None, leading_spaces: false }
    }
}

impl RegexBuilder {
    /// A builder for the base pattern, with no repetition and no tolerance
    /// for white space.
    pub fn new(pattern: &str) -> (r: Self)
        ensures
            r@ == (RegexBuilderView { pattern: pattern@, times: None, leading_spaces: false }),
    {
        Self { pattern: pattern.to_owned(), times: None, leading_spaces: false }
    }

    /// Sets the repetition to the one that the range of counts describes.
    ///
    /// A range that holds no count is not accepted.
    pub fn with_times<T: Sealed>(&mut self, times: T) -> (r: &mut Self)
        requires
            holds_a_count(times.start_edge(), times.end_edge()),
        ensures
            r@ == (RegexBuilderView {
                times: Some(
                    HowMuchOfPattern::of_counts(
                        least_count(times.start_edge()),
                        greatest_count(times.end_edge()),
                    ),
                ),
                ..old(self)@
            }),
            *final(self) == *final(r),
    {
        let hmop = HowMuchOfPattern::from(times);
        self.times = Some(hmop);
        self
    }

    /// Forgets the repetition.
    pub fn clear_times(&mut self) -> (r: &mut Self)
        ensures
            r@ == (RegexBuilderView { times: None, ..old(self)@ }),
            *final(self) == *final(r),
    {
        self.times = None;
        self
    }

    /// Says whether white space may surround the pattern.
    pub fn with_leading_spaces(&mut self, yes: bool) -> (r: &mut Self)
        ensures
            r@ == (RegexBuilderView { leading_spaces: yes, ..old(self)@ }),
            *final(self) == *final(r),
    {
        self.leading_spaces = yes;
        self
    }

    /// Appends the pattern text of `other` to the base pattern, as a group.
    /// What `other` was built with stays as its pattern text says it.
    pub fn merge(&mut self, other: RegexWrapper) -> (r: &mut Self)
        ensures
            r@ == (RegexBuilderView {
                pattern: old(self)@.pattern + seq!['('] + other.pattern@ + seq![')'],
                ..old(self)@
            }),
            *final(self) == *final(r),
    {
        proof {
            reveal_strlit("(");
            reveal_strlit(")");
        }
        self.pattern.append("(");
        self.pattern.append(other.pattern.as_str());
        self.pattern.append(")");
        assert(self.pattern@ =~= old(self)@.pattern + seq!['('] + other.pattern@ + seq![')']);
        self
    }

    /// Writes the pattern text that [`Self::try_build`] compiles.
    pub fn assemble(&self) -> (text: String)
        ensures
            text@ == self@.assembled(),
    {
        proof {
            reveal_strlit("(");
            reveal_strlit(")");
            reveal_strlit("\\s*");
        }
        let mut text = String::new();
        if self.leading_spaces {
            text.append("\\s*");
        }
        match &self.times {
            Some(times) => {
                text.append("(");
                text.append(self.pattern.as_str());
                text.append(")");
                text.append(times.repr().as_str());
            },
            None => {
                text.append(self.pattern.as_str());
            },
        }
        if self.leading_spaces {
            text.append("\\s*");
        }
        assert(text@ =~= self@.assembled());
        text
    }

    /// Compiles the assembled pattern text. Succeeds exactly where that text
    /// compiles, and then hands out the matcher together with the text.
    pub fn try_build(self) -> (r: Result<RegexWrapper, regex::Error>)
        ensures
            r is Ok == pattern_compiles(self@.assembled()),
            r matches Ok(w) ==> w.pattern@ == self@.assembled() && w.wf(),
    {
        let text = self.assemble();
        RegexWrapper::try_from(text.as_str())
    }
}

} // verus!
