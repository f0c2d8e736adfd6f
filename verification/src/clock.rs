//! The `Clock` trait can be implemented over hardware timers or other time-keeping device
use crate::fraction::Fraction;
use crate::instant::Instant;
use crate::time_int::TimeInt;
use vstd::prelude::*;

verus! {

/// Potential `Clock` errors
#[non_exhaustive]
#[derive(Debug, Eq, PartialEq)]
pub enum Error<E = ()> {
    /// specific implementation error
    Other(E),
}

/// An abstraction for time-keeping items such as hardware timers
pub trait Clock: Sized {
    /// The type to hold the tick count
    type Rep: TimeInt;

    /// Implementation-specific error type
    type ImplError;

    /// The duration of one clock tick in seconds, AKA the clock precision: the value that
    /// [`Clock::scaling_factor`] returns. Verified implementations define it; it has no
    /// meaning of its own otherwise.
    closed spec fn spec_scaling_factor() -> Fraction {
        arbitrary()
    }

    /// The duration of one clock tick in seconds, AKA the clock precision.
    fn scaling_factor() -> (r: Fraction)
        ensures
            r == Self::spec_scaling_factor(),
    ;

    /// Get the current Instant
    ///
    /// # Errors
    /// Implementation-specific error returned through [`Error::Other(ImplError)`]
    fn now(&self) -> Result<Instant<Self>, Error<Self::ImplError>>;
}

} // verus!
