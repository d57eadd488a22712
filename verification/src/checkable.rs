//! Values that can be checked.

use vstd::prelude::*;

verus! {

/// A value that can be checked, with an outcome of its own choice: a
/// warning that may be absent, or a result with a fatal error.
pub trait Checkable {
    /// What a check comes to.
    type Output;

    /// Checks the value.
    fn check(&self) -> Self::Output;
}

} // verus!
