//! Trimming, for string slices and strings alike.

use crate::text::{trim, trimmed};
use vstd::prelude::*;

verus! {

/// A text that can be trimmed.
pub trait AutoTrim {
    /// The text.
    spec fn text(&self) -> Seq<char>;

    /// The text without its leading and trailing white space.
    fn auto_trim(&self) -> (t: &str)
        ensures
            t@ == trimmed(self.text()),
    ;
}

impl AutoTrim for str {
    open spec fn text(&self) -> Seq<char> {
        self@
    }

    fn auto_trim(&self) -> (t: &str) {
        trim(self)
    }
}

impl AutoTrim for String {
    open spec fn text(&self) -> Seq<char> {
        self@
    }

    fn auto_trim(&self) -> (t: &str) {
        trim(self.as_str())
    }
}

} // verus!
