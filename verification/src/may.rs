//! Conversions that may fail without saying why.

use vstd::prelude::*;

verus! {

/// Builds `Self` from a `T`, or gives `None` where there is nothing to
/// build.
pub trait MayFrom<T>: Sized {
    /// Converts `value`, or returns `None`.
    fn may_from(value: T) -> Option<Self>;
}

/// Converts `Self` into a `T`, as [`MayFrom`] of `T` says.
pub trait MayInto<T: MayFrom<Self>>: Sized {
    /// Converts `value` as [`MayFrom::may_from`] of `T` does.
    fn may_into(value: Self) -> (converted: Option<T>)
        ensures
            call_ensures(T::may_from, (value,), converted),
    {
        T::may_from(value)
    }
}

} // verus!
