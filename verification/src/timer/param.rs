//! The type parameters of a [`Timer`](crate::timer::Timer): its kind (one-shot or periodic)
//! and its state (disarmed, armed or running)
use vstd::prelude::*;

verus! {

/// What a timer in a given state holds: a duration once it is armed, and an expiration
/// instant once it is running.
pub trait TimerState {
    /// Timers in this state hold a duration.
    spec fn has_duration() -> bool;

    /// Timers in this state hold an expiration instant.
    spec fn has_expiration() -> bool;
}

/// Neither kind nor state chosen yet
#[derive(Debug)]
pub struct Unset;

/// A timer that holds no duration
#[derive(Debug)]
pub struct Disarmed;

/// A timer that holds a duration and is ready to start
#[derive(Debug)]
pub struct Armed;

/// A timer that counts toward its expiration
#[derive(Debug)]
pub struct Running;

/// A timer that restarts when it expires
#[derive(Debug)]
pub struct Periodic;

/// A timer that expires once
#[derive(Debug)]
pub struct OneShot;

impl TimerState for Unset {
    open spec fn has_duration() -> bool {
        false
    }

    open spec fn has_expiration() -> bool {
        false
    }
}

impl TimerState for Disarmed {
    open spec fn has_duration() -> bool {
        false
    }

    open spec fn has_expiration() -> bool {
        false
    }
}

impl TimerState for Armed {
    open spec fn has_duration() -> bool {
        true
    }

    open spec fn has_expiration() -> bool {
        false
    }
}

impl TimerState for Running {
    open spec fn has_duration() -> bool {
        true
    }

    open spec fn has_expiration() -> bool {
        true
    }
}

} // verus!
