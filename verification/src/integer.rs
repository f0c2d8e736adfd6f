//! Signed integers wrapped for use as the magnitude of time values
use vstd::prelude::*;

verus! {

/// The signed integer types that [`Integer`] can wrap: `i32` and `i64`
pub trait IntTrait: Copy + core::fmt::Debug {
    /// The smallest value of the type
    spec fn spec_min() -> int;

    /// The largest value of the type
    spec fn spec_max() -> int;

    /// The value held
    spec fn spec_int(self) -> int;
}

impl IntTrait for i32 {
    open spec fn spec_min() -> int {
        i32::MIN as int
    }

    open spec fn spec_max() -> int {
        i32::MAX as int
    }

    open spec fn spec_int(self) -> int {
        self as int
    }
}

impl IntTrait for i64 {
    open spec fn spec_min() -> int {
        i64::MIN as int
    }

    open spec fn spec_max() -> int {
        i64::MAX as int
    }

    open spec fn spec_int(self) -> int {
        self as int
    }
}

/// A wrapped signed integer
#[derive(Copy, Clone, Debug, Default)]
pub struct Integer<T: IntTrait>(pub T);

impl<T: IntTrait> core::ops::Deref for Integer<T> {
    type Target = T;

    /// The wrapped integer
    fn deref(&self) -> (r: &T)
        ensures
            *r == self.0,
    {
        &self.0
    }
}

} // verus!
