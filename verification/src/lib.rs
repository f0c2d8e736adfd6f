//! Durations, rates, instants and clocks for embedded systems, as fixed-point values made of an
//! _integer_ and a constant [`Fraction`] _scaling factor_ (in seconds for durations and in
//! hertz for rates). Conversions between units are checked: they fail, rather than wrap, when
//! the converted value does not fit.
//!
//! A [`Clock`] reads [`Instant`]s; the difference of two instants is a duration, and a duration
//! added to an instant gives a later one. [`Timer`]s count toward an expiration on a clock.
pub mod arith;
pub mod clock;
pub mod duration;
pub mod fixed_point;
pub mod fraction;
pub mod frequency;
pub mod instant;
pub mod integer;
pub mod numeric_constructor;
pub mod numerical_duration;
pub mod numerical_traits;
pub mod period;
pub mod rate;
pub mod ratio;
pub mod time_int;
pub mod timer;

pub use clock::Clock;
pub use fraction::Fraction;
pub use instant::Instant;
pub use period::Period;
pub use timer::Timer;

use vstd::prelude::*;
use vstd::std_specs::convert::FromSpecImpl;

verus! {

/// Crate errors
#[non_exhaustive]
#[derive(Debug, Eq, PartialEq)]
pub enum TimeError<E = ()> {
    /// Exact cause of failure is unknown
    Unspecified,
    /// Attempted type conversion failed
    ConversionFailure,
    /// Result is outside of those valid for this type
    Overflow,
    /// Attempted to divide by zero
    DivByZero,
    /// Resulting duration is negative (not allowed)
    NegDuration,
    /// [`Clock`]-implementation-specific error
    Clock(clock::Error<E>),
}

impl<E> From<clock::Error<E>> for TimeError<E> {
    fn from(clock_error: clock::Error<E>) -> (r: Self) {
        TimeError::Clock(clock_error)
    }
}

impl<E> FromSpecImpl<clock::Error<E>> for TimeError<E> {
    open spec fn obeys_from_spec() -> bool {
        true
    }

    open spec fn from_spec(clock_error: clock::Error<E>) -> Self {
        TimeError::Clock(clock_error)
    }
}

/// Conversion errors
#[non_exhaustive]
#[derive(Debug, PartialEq, Eq, Hash, Structural)]
pub enum ConversionError {
    /// Exact cause of failure is unknown
    Unspecified,
    /// Attempted type conversion failed
    ConversionFailure,
    /// Result is outside of those valid for this type
    Overflow,
    /// Attempted to divide by zero
    DivByZero,
    /// Resulting duration is negative (not allowed)
    NegDuration,
}

/// The [`TimeError`] variant of the same name as a [`ConversionError`].
pub open spec fn spec_time_error<E>(error: ConversionError) -> TimeError<E> {
    match error {
        ConversionError::Unspecified => TimeError::Unspecified,
        ConversionError::ConversionFailure => TimeError::ConversionFailure,
        ConversionError::Overflow => TimeError::Overflow,
        ConversionError::DivByZero => TimeError::DivByZero,
        ConversionError::NegDuration => TimeError::NegDuration,
    }
}

impl<E> From<ConversionError> for TimeError<E> {
    fn from(error: ConversionError) -> (r: Self) {
        match error {
            ConversionError::Unspecified => TimeError::Unspecified,
            ConversionError::ConversionFailure => TimeError::ConversionFailure,
            ConversionError::Overflow => TimeError::Overflow,
            ConversionError::DivByZero => TimeError::DivByZero,
            ConversionError::NegDuration => TimeError::NegDuration,
        }
    }
}

impl<E> FromSpecImpl<ConversionError> for TimeError<E> {
    open spec fn obeys_from_spec() -> bool {
        true
    }

    open spec fn from_spec(error: ConversionError) -> Self {
        spec_time_error(error)
    }
}

} // verus!
