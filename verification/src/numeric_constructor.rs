//! Construction of time-based types from integers
use crate::duration::units::{Hours, Microseconds, Milliseconds, Minutes, Nanoseconds, Seconds};
use crate::rate::units::Hertz;
use crate::time_int::TimeInt;
use vstd::prelude::*;

verus! {

/// Construct time-based values from integers: `5_u32.seconds()` is `Seconds(5_u32)`
pub trait NumericConstructor: TimeInt {
    /// The duration of nanoseconds held by this integer
    fn nanoseconds(self) -> (r: Nanoseconds<Self>)
        ensures
            r.0 == self,
    ;

    /// The duration of microseconds held by this integer
    fn microseconds(self) -> (r: Microseconds<Self>)
        ensures
            r.0 == self,
    ;

    /// The duration of milliseconds held by this integer
    fn milliseconds(self) -> (r: Milliseconds<Self>)
        ensures
            r.0 == self,
    ;

    /// The duration of seconds held by this integer
    fn seconds(self) -> (r: Seconds<Self>)
        ensures
            r.0 == self,
    ;

    /// The duration of minutes held by this integer
    fn minutes(self) -> (r: Minutes<Self>)
        ensures
            r.0 == self,
    ;

    /// The duration of hours held by this integer
    fn hours(self) -> (r: Hours<Self>)
        ensures
            r.0 == self,
    ;

    /// The frequency in hertz held by this integer
    fn hertz(self) -> (r: Hertz<Self>)
        ensures
            r.0 == self,
    ;
}

impl NumericConstructor for u32 {
    fn nanoseconds(self) -> (r: Nanoseconds<u32>) {
        Nanoseconds(self)
    }

    fn microseconds(self) -> (r: Microseconds<u32>) {
        Microseconds(self)
    }

    fn milliseconds(self) -> (r: Milliseconds<u32>) {
        Milliseconds(self)
    }

    fn seconds(self) -> (r: Seconds<u32>) {
        Seconds(self)
    }

    fn minutes(self) -> (r: Minutes<u32>) {
        Minutes(self)
    }

    fn hours(self) -> (r: Hours<u32>) {
        Hours(self)
    }

    fn hertz(self) -> (r: Hertz<u32>) {
        Hertz(self)
    }
}

impl NumericConstructor for u64 {
    fn nanoseconds(self) -> (r: Nanoseconds<u64>) {
        Nanoseconds(self)
    }

    fn microseconds(self) -> (r: Microseconds<u64>) {
        Microseconds(self)
    }

    fn milliseconds(self) -> (r: Milliseconds<u64>) {
        Milliseconds(self)
    }

    fn seconds(self) -> (r: Seconds<u64>) {
        Seconds(self)
    }

    fn minutes(self) -> (r: Minutes<u64>) {
        Minutes(self)
    }

    fn hours(self) -> (r: Hours<u64>) {
        Hours(self)
    }

    fn hertz(self) -> (r: Hertz<u64>) {
        Hertz(self)
    }
}

} // verus!
