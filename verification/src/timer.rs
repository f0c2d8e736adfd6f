//! Timers that count toward an expiration on a [`Clock`](crate::clock::Clock)
//!
//! A timer is typed by its kind ([`OneShot`](param::OneShot) or [`Periodic`](param::Periodic))
//! and its state ([`Disarmed`](param::Disarmed), [`Armed`](param::Armed) or
//! [`Running`](param::Running)); each method is only available in the states where it makes
//! sense. The methods that read the clock come in two forms: one that takes the current instant
//! and one that asks the clock for it.
use crate::duration::Duration;
use crate::fixed_point::{duration_holds, FixedPoint};
use crate::instant::{
    instant_order, integer_since, spec_duration_ticks, ticks_after_add, ticks_after_sub, Instant,
};
use crate::time_int::TimeInt;
use crate::timer::param::{Armed, Disarmed, OneShot, Periodic, Running, TimerState};
use crate::{spec_time_error, ConversionError, TimeError};
use core::cmp::Ordering;
use core::marker::PhantomData;
use vstd::prelude::*;

pub mod param;

verus! {

/// A `Timer` counts toward an expiration, can be polled for elapsed and remaining time, as
/// well as optionally execute a task upon expiration.
#[derive(Debug)]
pub struct Timer<'a, Type, State: TimerState, Clock: crate::Clock, Dur: Duration + FixedPoint> {
    clock: &'a Clock,
    duration: Option<Dur>,
    expiration: Option<Instant<Clock>>,
    _type: PhantomData<Type>,
    _state: PhantomData<State>,
}

impl<'a, Type, State: TimerState, Clock: crate::Clock, Dur: Duration + FixedPoint> Timer<
    'a,
    Type,
    State,
    Clock,
    Dur,
> {
    /// An armed timer holds its duration; a running one also holds its expiration instant.
    #[verifier::type_invariant]
    spec fn wf(self) -> bool {
        &&& State::has_duration() ==> self.duration is Some
        &&& State::has_expiration() ==> self.expiration is Some
    }

    /// The clock the timer reads
    pub closed spec fn spec_clock(self) -> Clock {
        *self.clock
    }

    /// The duration of the timer, once it is armed
    pub closed spec fn spec_duration(self) -> Option<Dur> {
        self.duration
    }

    /// The instant at which the timer expires, once it is running
    pub closed spec fn spec_expiration(self) -> Option<Instant<Clock>> {
        self.expiration
    }

    /// The timer has expired at the instant of tick count `now`: `now` is not earlier than
    /// the expiration.
    pub open spec fn expired_at(self, now: nat) -> bool {
        instant_order(now, self.spec_expiration()->Some_0.tick_count(), Clock::Rep::spec_max())
            != Ordering::Less
    }

    /// What [`Timer::elapsed_at`] computes at the instant of tick count `now`: the integer of
    /// the duration since the timer was started (its expiration less its duration).
    pub open spec fn spec_elapsed(self, now: nat) -> Result<nat, ConversionError> {
        match ticks_after_sub::<Clock, Dur>(
            self.spec_expiration()->Some_0.tick_count(),
            self.spec_duration()->Some_0,
        ) {
            Ok(start) => integer_since::<Clock, Dur>(now, start),
            Err(e) => Err(e),
        }
    }

    /// What [`Timer::remaining_at`] computes at the instant of tick count `now`: the integer
    /// of the duration until the expiration, or `0` once it has passed (or cannot be expressed).
    pub open spec fn spec_remaining(self, now: nat) -> nat {
        match integer_since::<Clock, Dur>(self.spec_expiration()->Some_0.tick_count(), now) {
            Ok(v) => v,
            Err(_) => 0,
        }
    }

    /// Change timer type to one-shot
    pub fn into_oneshot(self) -> (r: Timer<'a, OneShot, State, Clock, Dur>)
        ensures
            r.spec_clock() == self.spec_clock(),
            r.spec_duration() == self.spec_duration(),
            r.spec_expiration() == self.spec_expiration(),
    {
        proof {
            use_type_invariant(&self);
        }
        Timer {
            clock: self.clock,
            duration: self.duration,
            expiration: self.expiration,
            _type: PhantomData,
            _state: PhantomData,
        }
    }

    /// Change timer type into periodic
    pub fn into_periodic(self) -> (r: Timer<'a, Periodic, State, Clock, Dur>)
        ensures
            r.spec_clock() == self.spec_clock(),
            r.spec_duration() == self.spec_duration(),
            r.spec_expiration() == self.spec_expiration(),
    {
        proof {
            use_type_invariant(&self);
        }
        Timer {
            clock: self.clock,
            duration: self.duration,
            expiration: self.expiration,
            _type: PhantomData,
            _state: PhantomData,
        }
    }
}

/// Timers spawned from a [`Clock`](crate::Clock)
pub trait NewTimer: crate::Clock {
    /// Spawn a new, `OneShot` [`Timer`] from this clock
    fn new_timer<Dur: Duration + FixedPoint>(&self) -> (r: Timer<'_, OneShot, Disarmed, Self, Dur>)
        ensures
            r.spec_clock() == *self,
            r.spec_duration() is None,
            r.spec_expiration() is None,
    ;
}

impl<C: crate::Clock> NewTimer for C {
    fn new_timer<Dur: Duration + FixedPoint>(&self) -> (r: Timer<'_, OneShot, Disarmed, Self, Dur>) {
        Timer::<param::Unset, param::Unset, Self, Dur>::new(self)
    }
}

impl<'a, Clock: crate::Clock, Dur: Duration + FixedPoint> Timer<
    'a,
    param::Unset,
    param::Unset,
    Clock,
    Dur,
> {
    /// Construct a new, `OneShot` `Timer`
    pub fn new(clock: &'a Clock) -> (r: Timer<'a, OneShot, Disarmed, Clock, Dur>)
        ensures
            r.spec_clock() == *clock,
            r.spec_duration() is None,
            r.spec_expiration() is None,
    {
        Timer {
            clock,
            duration: None,
            expiration: None,
            _type: PhantomData,
            _state: PhantomData,
        }
    }
}

impl<'a, Type, Clock: crate::Clock, Dur: Duration + FixedPoint> Timer<
    'a,
    Type,
    Disarmed,
    Clock,
    Dur,
> {
    /// Set the duration of the timer
    ///
    /// This _arms_ the timer (makes it ready to run).
    pub fn set_duration(self, duration: Dur) -> (r: Timer<'a, Type, Armed, Clock, Dur>)
        ensures
            r.spec_clock() == self.spec_clock(),
            r.spec_duration() == Some(duration),
            r.spec_expiration() is None,
    {
        Timer {
            clock: self.clock,
            duration: Some(duration),
            expiration: None,
            _type: PhantomData,
            _state: PhantomData,
        }
    }
}

impl<'a, Type, Clock: crate::Clock, Dur: Duration + FixedPoint> Timer<'a, Type, Armed, Clock, Dur> {
    /// Start the _armed_ timer from the instant `now`: it expires one duration later
    ///
    /// # Errors
    ///
    /// As [`Instant::checked_add_duration`]
    pub fn start_at(self, now: Instant<Clock>) -> (r: Result<
        Timer<'a, Type, Running, Clock, Dur>,
        ConversionError,
    >)
        requires
            Instant::<Clock>::converts::<Dur>(),
        ensures
            match ticks_after_add::<Clock, Dur>(now.tick_count(), self.spec_duration()->Some_0) {
                Ok(t) => {
                    &&& r is Ok
                    &&& r->Ok_0.spec_clock() == self.spec_clock()
                    &&& r->Ok_0.spec_duration() == self.spec_duration()
                    &&& r->Ok_0.spec_expiration() is Some
                    &&& r->Ok_0.spec_expiration()->Some_0.tick_count() == t
                },
                Err(e) => r == Err::<Timer<'a, Type, Running, Clock, Dur>, ConversionError>(e),
            },
    {
        proof {
            use_type_invariant(&self);
        }
        match now.checked_add_duration(self.duration.unwrap()) {
            Ok(expiration) => Ok(
                Timer {
                    clock: self.clock,
                    duration: self.duration,
                    expiration: Some(expiration),
                    _type: PhantomData,
                    _state: PhantomData,
                },
            ),
            Err(e) => Err(e),
        }
    }

    /// Start the _armed_ timer from the current instant of its clock
    ///
    /// # Errors
    ///
    /// [`TimeError::Clock`] : the clock could not be read; otherwise as
    /// [`Instant::checked_add_duration`]
    pub fn start(self) -> (r: Result<
        Timer<'a, Type, Running, Clock, Dur>,
        TimeError<Clock::ImplError>,
    >)
        requires
            Instant::<Clock>::converts::<Dur>(),
        ensures
            r matches Ok(tm) ==> tm.spec_clock() == self.spec_clock() && tm.spec_duration()
                == self.spec_duration() && exists|now: Instant<Clock>|
                #![auto]
                ticks_after_add::<Clock, Dur>(now.tick_count(), self.spec_duration()->Some_0)
                    == Ok::<nat, ConversionError>(tm.spec_expiration()->Some_0.tick_count()),
            spec_duration_ticks(
                self.spec_duration()->Some_0,
                Clock::Rep::spec_max(),
                Clock::spec_scaling_factor(),
            ) is Ok ==> (r matches Err(e) ==> e is Clock),
            spec_duration_ticks(
                self.spec_duration()->Some_0,
                Clock::Rep::spec_max(),
                Clock::spec_scaling_factor(),
            ) is Err ==> (r is Err && (r->Err_0 is Clock || r->Err_0 == spec_time_error::<
                Clock::ImplError,
            >(
                spec_duration_ticks(
                    self.spec_duration()->Some_0,
                    Clock::Rep::spec_max(),
                    Clock::spec_scaling_factor(),
                )->Err_0,
            ))),
    {
        match self.clock.now() {
            Ok(now) => match self.start_at(now) {
                Ok(tm) => {
                    proof {
                        assert(ticks_after_add::<Clock, Dur>(
                            now.tick_count(),
                            self.spec_duration()->Some_0,
                        ) == Ok::<nat, ConversionError>(tm.spec_expiration()->Some_0.tick_count()));
                    }
                    Ok(tm)
                },
                Err(e) => Err(TimeError::from(e)),
            },
            Err(e) => Err(TimeError::Clock(e)),
        }
    }
}

impl<'a, Type, Clock: crate::Clock, Dur: Duration + FixedPoint> Timer<'a, Type, Running, Clock, Dur> {
    /// Whether the timer has expired at the instant `now`
    pub fn is_expired_at(&self, now: &Instant<Clock>) -> (r: bool)
        ensures
            r == self.expired_at(now.tick_count()),
    {
        proof {
            use_type_invariant(self);
        }
        let expiration = self.expiration.unwrap();
        match now.partial_cmp(&expiration) {
            Some(Ordering::Less) => false,
            _ => true,
        }
    }

    /// Whether the timer has expired at the current instant of its clock (which instant that is,
    /// the clock alone decides: see [`Timer::is_expired_at`])
    fn _is_expired(&self) -> (r: Result<bool, TimeError<Clock::ImplError>>)
        ensures
            r matches Ok(b) ==> exists|now: nat|
                #![trigger self.expired_at(now)]
                now <= Clock::Rep::spec_max() && b == self.expired_at(now),
            r matches Err(e) ==> e is Clock,
    {
        match self.clock.now() {
            Ok(now) => {
                let b = self.is_expired_at(&now);
                proof {
                    Clock::Rep::lemma_range(now.spec_ticks(), now.spec_ticks());
                    assert(b == self.expired_at(now.tick_count()));
                }
                Ok(b)
            },
            Err(e) => Err(TimeError::Clock(e)),
        }
    }

    /// Returns the duration of time elapsed from the start of the timer to the instant `now`
    ///
    /// The units of the duration are the same as that used with
    /// [`set_duration()`](Timer::set_duration).
    ///
    /// # Errors
    ///
    /// As [`Instant::checked_sub_duration`] and [`Instant::duration_since`]
    pub fn elapsed_at(&self, now: &Instant<Clock>) -> (r: Result<Dur, ConversionError>)
        requires
            Instant::<Clock>::converts::<Dur>(),
        ensures
            duration_holds(r, self.spec_elapsed(now.tick_count())),
    {
        proof {
            use_type_invariant(self);
        }
        let start = match self.expiration.unwrap().checked_sub_duration(self.duration.unwrap()) {
            Ok(start) => start,
            Err(e) => {
                return Err(e);
            },
        };
        now.duration_since::<Dur>(&start)
    }

    /// Returns the duration of time elapsed since the timer was started, at the current instant
    /// of its clock
    ///
    /// # Errors
    ///
    /// [`TimeError::Clock`] : the clock could not be read; otherwise as
    /// [`Timer::elapsed_at`]
    pub fn elapsed(&self) -> (r: Result<Dur, TimeError<Clock::ImplError>>)
        requires
            Instant::<Clock>::converts::<Dur>(),
        ensures
            r matches Ok(d) ==> exists|now: nat|
                #![auto]
                self.spec_elapsed(now) == Ok::<nat, ConversionError>(d.spec_integer().spec_value()),
            r matches Err(e) ==> (e is Clock || exists|now: nat|
                #![auto]
                self.spec_elapsed(now) is Err && e == spec_time_error::<Clock::ImplError>(
                    self.spec_elapsed(now)->Err_0,
                )),
            ticks_after_sub::<Clock, Dur>(
                self.spec_expiration()->Some_0.tick_count(),
                self.spec_duration()->Some_0,
            ) is Err ==> (r is Err && (r->Err_0 is Clock || r->Err_0 == spec_time_error::<
                Clock::ImplError,
            >(
                ticks_after_sub::<Clock, Dur>(
                    self.spec_expiration()->Some_0.tick_count(),
                    self.spec_duration()->Some_0,
                )->Err_0,
            ))),
    {
        match self.clock.now() {
            Ok(now) => match self.elapsed_at(&now) {
                Ok(d) => {
                    proof {
                        assert(self.spec_elapsed(now.tick_count()) == Ok::<nat, ConversionError>(
                            d.spec_integer().spec_value(),
                        ));
                    }
                    Ok(d)
                },
                Err(e) => {
                    proof {
                        assert(self.spec_elapsed(now.tick_count()) is Err);
                    }
                    Err(TimeError::from(e))
                },
            },
            Err(e) => Err(TimeError::Clock(e)),
        }
    }

    /// Returns the duration from the instant `now` until the expiration of the timer, or `0`
    /// once it has expired
    ///
    /// The units of the duration are the same as that used with
    /// [`set_duration()`](Timer::set_duration).
    pub fn remaining_at(&self, now: &Instant<Clock>) -> (r: Dur)
        requires
            Clock::spec_scaling_factor().spec_denom() > 0,
        ensures
            r.spec_integer().spec_value() == self.spec_remaining(now.tick_count()),
    {
        proof {
            use_type_invariant(self);
        }
        match self.expiration.unwrap().duration_since::<Dur>(now) {
            Ok(duration) => duration,
            Err(_) => {
                let zero: Dur::T = TimeInt::min_value();
                Dur::new(zero)
            },
        }
    }

    /// Returns the duration until the expiration of the timer, or `0` once it has expired, at
    /// the current instant of its clock
    ///
    /// # Errors
    ///
    /// [`TimeError::Clock`] : the clock could not be read
    pub fn remaining(&self) -> (r: Result<Dur, TimeError<Clock::ImplError>>)
        requires
            Clock::spec_scaling_factor().spec_denom() > 0,
        ensures
            r matches Ok(d) ==> exists|now: nat|
                #![auto]
                self.spec_remaining(now) == d.spec_integer().spec_value(),
            r matches Err(e) ==> e is Clock,
    {
        match self.clock.now() {
            Ok(now) => Ok(self.remaining_at(&now)),
            Err(e) => Err(TimeError::Clock(e)),
        }
    }
}

impl<'a, Clock: crate::Clock, Dur: Duration + FixedPoint> Timer<'a, OneShot, Running, Clock, Dur> {
    /// Check whether the timer has expired, at the current instant of its clock (which instant
    /// that is, the clock alone decides: see [`Timer::is_expired_at`])
    ///
    /// The timer is not restarted
    ///
    /// # Errors
    ///
    /// [`TimeError::Clock`] : the clock could not be read
    pub fn is_expired(&self) -> (r: Result<bool, TimeError<Clock::ImplError>>)
        ensures
            r matches Ok(b) ==> exists|now: nat|
                #![trigger self.expired_at(now)]
                now <= Clock::Rep::spec_max() && b == self.expired_at(now),
            r matches Err(e) ==> e is Clock,
    {
        self._is_expired()
    }

    /// The timer that waiting on this one gives back once it has expired: armed again with
    /// the same duration, ready to be started anew
    pub fn rearm(self) -> (r: Timer<'a, OneShot, Armed, Clock, Dur>)
        ensures
            r.spec_clock() == self.spec_clock(),
            r.spec_duration() == self.spec_duration(),
            r.spec_expiration() is None,
    {
        proof {
            use_type_invariant(&self);
        }
        Timer::<param::Unset, param::Unset, Clock, Dur>::new(self.clock).set_duration(
            self.duration.unwrap(),
        )
    }
}

impl<'a, Clock: crate::Clock, Dur: Duration + FixedPoint> Timer<'a, Periodic, Running, Clock, Dur> {
    /// The timer that waiting on this one gives back once it has expired: the expiration is
    /// moved one duration later
    ///
    /// # Errors
    ///
    /// As [`Instant::checked_add_duration`]
    pub fn next_period(self) -> (r: Result<Self, ConversionError>)
        requires
            Instant::<Clock>::converts::<Dur>(),
        ensures
            match ticks_after_add::<Clock, Dur>(
                self.spec_expiration()->Some_0.tick_count(),
                self.spec_duration()->Some_0,
            ) {
                Ok(t) => {
                    &&& r is Ok
                    &&& r->Ok_0.spec_clock() == self.spec_clock()
                    &&& r->Ok_0.spec_duration() == self.spec_duration()
                    &&& r->Ok_0.spec_expiration() is Some
                    &&& r->Ok_0.spec_expiration()->Some_0.tick_count() == t
                },
                Err(e) => r == Err::<Self, ConversionError>(e),
            },
    {
        proof {
            use_type_invariant(&self);
        }
        match self.expiration.unwrap().checked_add_duration(self.duration.unwrap()) {
            Ok(expiration) => Ok(
                Timer {
                    clock: self.clock,
                    duration: self.duration,
                    expiration: Some(expiration),
                    _type: PhantomData,
                    _state: PhantomData,
                },
            ),
            Err(e) => Err(e),
        }
    }

    /// Check whether a _periodic_ timer has elapsed at the instant `now`
    ///
    /// The timer is restarted (its expiration moved one duration later) if it has elapsed.
    ///
    /// # Errors
    ///
    /// As [`Instant::checked_add_duration`]; the timer is then left unchanged
    pub fn period_complete_at(&mut self, now: &Instant<Clock>) -> (r: Result<bool, ConversionError>)
        requires
            Instant::<Clock>::converts::<Dur>(),
        ensures
            !old(self).expired_at(now.tick_count()) ==> r == Ok::<bool, ConversionError>(false)
                && *final(self) == *old(self),
            old(self).expired_at(now.tick_count()) ==> match ticks_after_add::<Clock, Dur>(
                old(self).spec_expiration()->Some_0.tick_count(),
                old(self).spec_duration()->Some_0,
            ) {
                Ok(t) => {
                    &&& r == Ok::<bool, ConversionError>(true)
                    &&& final(self).spec_clock() == old(self).spec_clock()
                    &&& final(self).spec_duration() == old(self).spec_duration()
                    &&& final(self).spec_expiration() is Some
                    &&& final(self).spec_expiration()->Some_0.tick_count() == t
                },
                Err(e) => r == Err::<bool, ConversionError>(e) && *final(self) == *old(self),
            },
    {
        proof {
            use_type_invariant(&*self);
        }
        if self.is_expired_at(now) {
            match self.expiration.unwrap().checked_add_duration(self.duration.unwrap()) {
                Ok(expiration) => {
                    self.expiration = Some(expiration);
                    Ok(true)
                },
                Err(e) => Err(e),
            }
        } else {
            Ok(false)
        }
    }

    /// Check whether a _periodic_ timer has elapsed at the current instant of its clock
    ///
    /// The timer is restarted if it has elapsed.
    ///
    /// # Errors
    ///
    /// [`TimeError::Clock`] : the clock could not be read; otherwise as
    /// [`Timer::period_complete_at`]
    pub fn period_complete(&mut self) -> (r: Result<bool, TimeError<Clock::ImplError>>)
        requires
            Instant::<Clock>::converts::<Dur>(),
        ensures
            r matches Ok(false) ==> *final(self) == *old(self),
            r matches Ok(true) ==> final(self).spec_clock() == old(self).spec_clock()
                && final(self).spec_duration() == old(self).spec_duration() && ticks_after_add::<
                Clock,
                Dur,
            >(old(self).spec_expiration()->Some_0.tick_count(), old(self).spec_duration()->Some_0)
                == Ok::<nat, ConversionError>(final(self).spec_expiration()->Some_0.tick_count()),
            r matches Err(_) ==> *final(self) == *old(self),
            r matches Ok(b) ==> exists|now: nat|
                #![trigger old(self).expired_at(now)]
                now <= Clock::Rep::spec_max() && b == old(self).expired_at(now),
            r matches Err(e) ==> (e is Clock || (ticks_after_add::<Clock, Dur>(
                old(self).spec_expiration()->Some_0.tick_count(),
                old(self).spec_duration()->Some_0,
            ) is Err && e == spec_time_error::<Clock::ImplError>(
                ticks_after_add::<Clock, Dur>(
                    old(self).spec_expiration()->Some_0.tick_count(),
                    old(self).spec_duration()->Some_0,
                )->Err_0,
            ))),
    {
        match self.clock.now() {
            Ok(now) => match self.period_complete_at(&now) {
                Ok(b) => {
                    proof {
                        Clock::Rep::lemma_range(now.spec_ticks(), now.spec_ticks());
                        assert(b == old(self).expired_at(now.tick_count()));
                    }
                    Ok(b)
                },
                Err(e) => Err(TimeError::from(e)),
            },
            Err(e) => Err(TimeError::Clock(e)),
        }
    }
}

} // verus!
