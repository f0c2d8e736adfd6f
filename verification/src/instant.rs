//! An instant of time
use crate::arith::{lemma_wrapping_inverse, rescale, wrapping_diff, wrapping_sum};
use crate::fixed_point::{duration_holds, spec_from_ticks, spec_into_ticks, FixedPoint};
use crate::time_int::TimeInt;
use crate::ConversionError;
use core::cmp::Ordering;
use vstd::prelude::*;
use vstd::std_specs::cmp::PartialEqSpecImpl;
use vstd::std_specs::cmp::PartialOrdSpecImpl;
use vstd::std_specs::ops::AddSpecImpl;
use vstd::std_specs::ops::SubSpecImpl;

verus! {

/// How an instant of tick count `a` compares to one of tick count `b` on a clock whose
/// counter wraps after `max`: `a` is later when it is less than half the wrap-around period
/// ahead of `b` (the wrapped difference `a - b` is below `max / 2`), and earlier when it is more.
pub open spec fn instant_order(a: nat, b: nat, max: nat) -> Ordering {
    let d = wrapping_diff(a, b, max);
    if d < max / 2 {
        Ordering::Greater
    } else if d == max / 2 {
        Ordering::Equal
    } else {
        Ordering::Less
    }
}

/// The number of ticks of a clock with scaling factor `csf` (counter bounded by `cmax`) that a
/// duration `d` spans, when it can be added to or subtracted from an instant: at most half the
/// wrap-around period.
pub open spec fn spec_duration_ticks<Dur: FixedPoint>(d: Dur, cmax: nat, csf: crate::fraction::Fraction) -> Result<
    nat,
    ConversionError,
> {
    match spec_into_ticks(
        d.spec_integer().spec_value(),
        Dur::T::spec_max(),
        Dur::spec_scaling_factor(),
        cmax,
        csf,
    ) {
        Ok(t) => if t <= cmax / 2 {
            Ok(t)
        } else {
            Err(ConversionError::Overflow)
        },
        Err(e) => Err(e),
    }
}

/// What [`Instant::duration_since`] computes for an instant of tick count `a` since one of tick
/// count `b` on `Clock`: the integer of the `Dur` spanning the ticks between them, or the error.
pub open spec fn integer_since<Clock: crate::Clock, Dur: FixedPoint>(a: nat, b: nat) -> Result<
    nat,
    ConversionError,
> {
    if instant_order(a, b, Clock::Rep::spec_max()) == Ordering::Less {
        Err(ConversionError::NegDuration)
    } else {
        spec_from_ticks(
            wrapping_diff(a, b, Clock::Rep::spec_max()),
            Clock::Rep::spec_max(),
            Clock::spec_scaling_factor(),
            Dur::T::spec_max(),
            Dur::spec_scaling_factor(),
        )
    }
}

/// What [`Instant::checked_add_duration`] computes for an instant of tick count `a` on `Clock`:
/// the tick count of the later instant, or the error.
pub open spec fn ticks_after_add<Clock: crate::Clock, Dur: FixedPoint>(a: nat, d: Dur) -> Result<
    nat,
    ConversionError,
> {
    match spec_duration_ticks(d, Clock::Rep::spec_max(), Clock::spec_scaling_factor()) {
        Ok(t) => Ok(wrapping_sum(a, t, Clock::Rep::spec_max())),
        Err(e) => Err(e),
    }
}

/// What [`Instant::checked_sub_duration`] computes for an instant of tick count `a` on `Clock`:
/// the tick count of the earlier instant, or the error.
pub open spec fn ticks_after_sub<Clock: crate::Clock, Dur: FixedPoint>(a: nat, d: Dur) -> Result<
    nat,
    ConversionError,
> {
    match spec_duration_ticks(d, Clock::Rep::spec_max(), Clock::spec_scaling_factor()) {
        Ok(t) => Ok(wrapping_diff(a, t, Clock::Rep::spec_max())),
        Err(e) => Err(e),
    }
}

/// Represents an instant of time relative to a specific [`Clock`](crate::clock::Clock)
#[derive(Debug)]
pub struct Instant<Clock: crate::Clock> {
    ticks: Clock::Rep,
}

impl<Clock: crate::Clock> Instant<Clock> {
    /// The tick count of the clock at this instant
    pub closed spec fn spec_ticks(self) -> Clock::Rep {
        self.ticks
    }

    /// The instant of the given tick count
    pub closed spec fn spec_new(ticks: Clock::Rep) -> Self {
        Instant { ticks }
    }

    /// The tick count at this instant, as a number
    pub open spec fn tick_count(self) -> nat {
        self.spec_ticks().spec_value()
    }

    /// The scaling factor of the clock is usable to convert durations to and from ticks of
    /// `Dur`: it has a positive denominator.
    pub open spec fn converts<Dur: FixedPoint>() -> bool {
        Clock::spec_scaling_factor().spec_denom() > 0
    }

    /// An instant is determined by its tick count.
    pub proof fn lemma_ticks(a: Self, b: Self)
        ensures
            a.spec_ticks() == b.spec_ticks() ==> a == b,
            Self::spec_new(a.spec_ticks()) == a,
            Self::spec_new(b.spec_ticks()).spec_ticks() == b.spec_ticks(),
    {
    }

    /// Construct a new Instant from the provided [`Clock`](crate::clock::Clock)
    pub fn new(ticks: Clock::Rep) -> (r: Self)
        ensures
            r.spec_ticks() == ticks,
    {
        Self { ticks }
    }

    /// The wrapped difference of the tick counts and half the wrap-around period
    fn difference(&self, other: &Self) -> (r: (Clock::Rep, Clock::Rep))
        ensures
            r.0.spec_value() == wrapping_diff(
                self.tick_count(),
                other.tick_count(),
                Clock::Rep::spec_max(),
            ),
            r.1.spec_value() == Clock::Rep::spec_max() / 2,
    {
        let half = half_max::<Clock::Rep>();
        (self.ticks.wrapping_sub(&other.ticks), half)
    }

    /// How this instant compares to `other` (see [`instant_order`])
    fn order(&self, other: &Self) -> (r: Ordering)
        ensures
            r == instant_order(self.tick_count(), other.tick_count(), Clock::Rep::spec_max()),
    {
        let (d, half) = self.difference(other);
        if d.to_u64() < half.to_u64() {
            Ordering::Greater
        } else if d.to_u64() == half.to_u64() {
            Ordering::Equal
        } else {
            Ordering::Less
        }
    }

    /// Returns the duration since the given `Instant`
    ///
    /// # Errors
    ///
    /// - [`ConversionError::NegDuration`] : `Instant` is in the future
    /// - [`ConversionError::Overflow`] : problem coverting to the desired duration
    /// - [`ConversionError::ConversionFailure`] : problem coverting to the desired duration
    pub fn duration_since<Dur: FixedPoint>(&self, other: &Self) -> (r: Result<Dur, ConversionError>)
        requires
            Clock::spec_scaling_factor().spec_denom() > 0,
        ensures
            duration_holds(r, integer_since::<Clock, Dur>(self.tick_count(), other.tick_count())),
    {
        match self.order(other) {
            Ordering::Less => Err(ConversionError::NegDuration),
            _ => {
                let (d, _) = self.difference(other);
                crate::fixed_point::from_ticks(d, Clock::scaling_factor())
            },
        }
    }

    /// Returns the duration until the given `Instant`
    ///
    /// # Errors
    ///
    /// - [`ConversionError::NegDuration`] : `Instant` is in the past
    /// - [`ConversionError::Overflow`] : problem coverting to the desired duration
    /// - [`ConversionError::ConversionFailure`] : problem coverting to the desired duration
    pub fn duration_until<Dur: FixedPoint>(&self, other: &Self) -> (r: Result<Dur, ConversionError>)
        requires
            Clock::spec_scaling_factor().spec_denom() > 0,
        ensures
            duration_holds(r, integer_since::<Clock, Dur>(other.tick_count(), self.tick_count())),
    {
        other.duration_since(self)
    }

    /// Returns the duration (in the provided units) since the beginning of time (the
    /// [`Clock`](crate::clock::Clock)'s 0)
    ///
    /// If it is a _wrapping_ clock, the result is meaningless.
    pub fn duration_since_epoch<Dur: FixedPoint>(&self) -> (r: Result<Dur, ConversionError>)
        requires
            Clock::spec_scaling_factor().spec_denom() > 0,
        ensures
            duration_holds(
                r,
                spec_from_ticks(
                    self.tick_count(),
                    Clock::Rep::spec_max(),
                    Clock::spec_scaling_factor(),
                    Dur::T::spec_max(),
                    Dur::spec_scaling_factor(),
                ),
            ),
    {
        crate::fixed_point::from_ticks(self.ticks, Clock::scaling_factor())
    }

    /// Adds a duration to an `Instant` resulting in a new, later `Instant`
    ///
    /// # Errors
    /// [`ConversionError::Overflow`] : The duration is more than half the wrap-around period of
    /// the clock (or does not fit in the clock's integer type)
    ///
    /// [`ConversionError::ConversionFailure`] / [`ConversionError::Unspecified`] : the
    /// duration cannot be converted into ticks of the clock
    pub fn checked_add_duration<Dur: FixedPoint>(self, duration: Dur) -> (r: Result<Self, ConversionError>)
        requires
            Self::converts::<Dur>(),
        ensures
            match ticks_after_add::<Clock, Dur>(self.tick_count(), duration) {
                Ok(t) => r matches Ok(i) && i.tick_count() == t,
                Err(e) => r == Err::<Self, ConversionError>(e),
            },
    {
        let add_ticks = match duration.into_ticks::<Clock::Rep>(Clock::scaling_factor()) {
            Ok(t) => t,
            Err(e) => return Err(e),
        };
        if add_ticks.to_u64() <= half_max::<Clock::Rep>().to_u64() {
            Ok(Self { ticks: self.ticks.wrapping_add(&add_ticks) })
        } else {
            Err(ConversionError::Overflow)
        }
    }

    /// Subtract a duration from an `Instant` resulting in a new, earlier `Instant`
    ///
    /// # Errors
    /// [`ConversionError::Overflow`] : The duration is more than half the wrap-around period of
    /// the clock (or does not fit in the clock's integer type)
    ///
    /// [`ConversionError::ConversionFailure`] / [`ConversionError::Unspecified`] : the
    /// duration cannot be converted into ticks of the clock
    pub fn checked_sub_duration<Dur: FixedPoint>(self, duration: Dur) -> (r: Result<Self, ConversionError>)
        requires
            Self::converts::<Dur>(),
        ensures
            match ticks_after_sub::<Clock, Dur>(self.tick_count(), duration) {
                Ok(t) => r matches Ok(i) && i.tick_count() == t,
                Err(e) => r == Err::<Self, ConversionError>(e),
            },
    {
        let sub_ticks = match duration.into_ticks::<Clock::Rep>(Clock::scaling_factor()) {
            Ok(t) => t,
            Err(e) => return Err(e),
        };
        if sub_ticks.to_u64() <= half_max::<Clock::Rep>().to_u64() {
            Ok(Self { ticks: self.ticks.wrapping_sub(&sub_ticks) })
        } else {
            Err(ConversionError::Overflow)
        }
    }
}

/// Subtracting a duration from the instant it was added to gives back that instant:
/// `(i + d) - d == i` whenever `i + d` is defined.
pub proof fn lemma_add_then_sub<Clock: crate::Clock, Dur: FixedPoint>(i: Instant<Clock>, d: Dur)
    requires
        ticks_after_add::<Clock, Dur>(i.tick_count(), d) is Ok,
    ensures
        ticks_after_sub::<Clock, Dur>(ticks_after_add::<Clock, Dur>(i.tick_count(), d)->Ok_0, d)
            == Ok::<nat, ConversionError>(i.tick_count()),
{
    Clock::Rep::lemma_range(i.spec_ticks(), i.spec_ticks());
    let t = spec_duration_ticks(d, Clock::Rep::spec_max(), Clock::spec_scaling_factor())->Ok_0;
    lemma_wrapping_inverse(i.tick_count(), t, Clock::Rep::spec_max());
}

/// Adding a duration to the instant it was subtracted from gives back that instant:
/// `(i - d) + d == i` whenever `i - d` is defined.
pub proof fn lemma_sub_then_add<Clock: crate::Clock, Dur: FixedPoint>(i: Instant<Clock>, d: Dur)
    requires
        ticks_after_sub::<Clock, Dur>(i.tick_count(), d) is Ok,
    ensures
        ticks_after_add::<Clock, Dur>(ticks_after_sub::<Clock, Dur>(i.tick_count(), d)->Ok_0, d)
            == Ok::<nat, ConversionError>(i.tick_count()),
{
    Clock::Rep::lemma_range(i.spec_ticks(), i.spec_ticks());
    let t = spec_duration_ticks(d, Clock::Rep::spec_max(), Clock::spec_scaling_factor())->Ok_0;
    lemma_wrapping_inverse(i.tick_count(), t, Clock::Rep::spec_max());
}

/// `i + d` lies exactly the ticks of `d` after `i`: the duration since `i` of `i + d` is those
/// ticks expressed in any duration type `Out`, and `i + d` is later than `i`, unless `d` spans
/// half the wrap-around period of the clock, where the two compare equal.
pub proof fn lemma_add_then_since<Clock: crate::Clock, Dur: FixedPoint, Out: FixedPoint>(
    i: Instant<Clock>,
    d: Dur,
)
    requires
        ticks_after_add::<Clock, Dur>(i.tick_count(), d) is Ok,
    ensures
        ({
            let later = ticks_after_add::<Clock, Dur>(i.tick_count(), d)->Ok_0;
            let t = spec_duration_ticks(d, Clock::Rep::spec_max(), Clock::spec_scaling_factor())->Ok_0;
            &&& wrapping_diff(later, i.tick_count(), Clock::Rep::spec_max()) == t
            &&& instant_order(later, i.tick_count(), Clock::Rep::spec_max()) == if t < Clock::Rep::spec_max()
                / 2 {
                Ordering::Greater
            } else {
                Ordering::Equal
            }
            &&& integer_since::<Clock, Out>(later, i.tick_count()) == spec_from_ticks(
                t,
                Clock::Rep::spec_max(),
                Clock::spec_scaling_factor(),
                Out::T::spec_max(),
                Out::spec_scaling_factor(),
            )
        }),
{
    Clock::Rep::lemma_range(i.spec_ticks(), i.spec_ticks());
    let t = spec_duration_ticks(d, Clock::Rep::spec_max(), Clock::spec_scaling_factor())->Ok_0;
    lemma_wrapping_inverse(i.tick_count(), t, Clock::Rep::spec_max());
}

/// The bound on a duration added to or subtracted from an instant is half the wrap-around period
/// of the clock's own integer type: a duration of `t` ticks of the clock (its integer times its
/// scaling factor, divided by the clock's) with `t <= Clock::Rep::MAX / 2` moves any instant
/// exactly `t` ticks forward or back, wrapping, and a longer one is refused (as an overflow
/// when the ticks still fit the clock's integer type).
pub proof fn lemma_add_sub_within_half_period<Clock: crate::Clock, Dur: FixedPoint>(
    i: Instant<Clock>,
    d: Dur,
)
    requires
        Clock::spec_scaling_factor().spec_numer() > 0,
    ensures
        ({
            let m = Clock::Rep::spec_max();
            let t = rescale(
                d.spec_integer().spec_value(),
                Dur::spec_scaling_factor().spec_numer(),
                Dur::spec_scaling_factor().spec_denom(),
                Clock::spec_scaling_factor().spec_numer(),
                Clock::spec_scaling_factor().spec_denom(),
            );
            &&& t <= m / 2 ==> ticks_after_add::<Clock, Dur>(i.tick_count(), d) == Ok::<
                nat,
                ConversionError,
            >(wrapping_sum(i.tick_count(), t, m))
            &&& t <= m / 2 ==> ticks_after_sub::<Clock, Dur>(i.tick_count(), d) == Ok::<
                nat,
                ConversionError,
            >(wrapping_diff(i.tick_count(), t, m))
            &&& t > m / 2 ==> ticks_after_add::<Clock, Dur>(i.tick_count(), d) is Err
            &&& t > m / 2 ==> ticks_after_sub::<Clock, Dur>(i.tick_count(), d) is Err
            &&& m / 2 < t <= m ==> ticks_after_add::<Clock, Dur>(i.tick_count(), d) == Err::<
                nat,
                ConversionError,
            >(ConversionError::Overflow)
            &&& m / 2 < t <= m ==> ticks_after_sub::<Clock, Dur>(i.tick_count(), d) == Err::<
                nat,
                ConversionError,
            >(ConversionError::Overflow)
        }),
{
}

/// Half the largest value of an integer type, rounded down
fn half_max<T: TimeInt>() -> (r: T)
    ensures
        r.spec_value() == T::spec_max() / 2,
{
    match T::max_value().checked_div(&T::from_u32(2)) {
        Some(h) => h,
        None => T::min_value(),
    }
}

impl<Clock: crate::Clock> Copy for Instant<Clock> {

}

impl<Clock: crate::Clock> Clone for Instant<Clock> {
    fn clone(&self) -> (r: Self)
        ensures
            r == *self,
    {
        Self { ticks: self.ticks }
    }
}

impl<Clock: crate::Clock> PartialEq for Instant<Clock> {
    fn eq(&self, other: &Self) -> (r: bool) {
        self.ticks.to_u64() == other.ticks.to_u64()
    }
}

impl<Clock: crate::Clock> PartialEqSpecImpl for Instant<Clock> {
    open spec fn obeys_eq_spec() -> bool {
        true
    }

    open spec fn eq_spec(&self, other: &Self) -> bool {
        self.tick_count() == other.tick_count()
    }
}

impl<Clock: crate::Clock> Eq for Instant<Clock> {

}

impl<Clock: crate::Clock> PartialOrd for Instant<Clock> {
    /// Instants compare by the wrapped difference of their tick counts: an instant is later
    /// than another when it is less than half the wrap-around period of the clock ahead of it
    fn partial_cmp(&self, other: &Self) -> (r: Option<Ordering>) {
        Some(self.order(other))
    }
}

impl<Clock: crate::Clock> PartialOrdSpecImpl for Instant<Clock> {
    open spec fn obeys_partial_cmp_spec() -> bool {
        true
    }

    open spec fn partial_cmp_spec(&self, other: &Self) -> Option<Ordering> {
        Some(instant_order(self.tick_count(), other.tick_count(), Clock::Rep::spec_max()))
    }
}

impl<Clock: crate::Clock, Dur: FixedPoint> core::ops::Add<Dur> for Instant<Clock> {
    type Output = Self;

    /// Add a duration to an `Instant` resulting in a new, later `Instant`
    ///
    /// # Panics
    /// Virtually the same reason the integer operation would panic. Namely, if the
    /// result overflows the type. Specifically, if the duration is more than half
    /// the wrap-around period of the clock.
    fn add(self, rhs: Dur) -> (r: Self) {
        match self.checked_add_duration(rhs) {
            Ok(i) => {
                proof {
                    Clock::Rep::lemma_from_nat(i.tick_count());
                    Clock::Rep::lemma_range(i.spec_ticks(), Clock::Rep::spec_from_nat(i.tick_count()));
                    Self::lemma_ticks(i, i);
                }
                i
            },
            Err(_) => {
                proof {
                    assert(false);
                }
                self
            },
        }
    }
}

impl<Clock: crate::Clock, Dur: FixedPoint> AddSpecImpl<Dur> for Instant<Clock> {
    open spec fn obeys_add_spec() -> bool {
        true
    }

    open spec fn add_req(self, rhs: Dur) -> bool {
        &&& Self::converts::<Dur>()
        &&& spec_duration_ticks(rhs, Clock::Rep::spec_max(), Clock::spec_scaling_factor()) is Ok
    }

    open spec fn add_spec(self, rhs: Dur) -> Self {
        Self::spec_new(
            Clock::Rep::spec_from_nat(
                wrapping_sum(
                    self.tick_count(),
                    spec_duration_ticks(rhs, Clock::Rep::spec_max(), Clock::spec_scaling_factor())->Ok_0,
                    Clock::Rep::spec_max(),
                ),
            ),
        )
    }
}

impl<Clock: crate::Clock, Dur: FixedPoint> core::ops::Sub<Dur> for Instant<Clock> {
    type Output = Self;

    /// Subtract a duration from an `Instant` resulting in a new, earlier `Instant`
    ///
    /// # Panics
    ///
    /// Virtually the same reason the integer operation would panic. Namely, if the
    /// result overflows the type. Specifically, if the duration is more than half
    /// the wrap-around period of the clock.
    fn sub(self, rhs: Dur) -> (r: Self) {
        match self.checked_sub_duration(rhs) {
            Ok(i) => {
                proof {
                    Clock::Rep::lemma_from_nat(i.tick_count());
                    Clock::Rep::lemma_range(i.spec_ticks(), Clock::Rep::spec_from_nat(i.tick_count()));
                    Self::lemma_ticks(i, i);
                }
                i
            },
            Err(_) => {
                proof {
                    assert(false);
                }
                self
            },
        }
    }
}

impl<Clock: crate::Clock, Dur: FixedPoint> SubSpecImpl<Dur> for Instant<Clock> {
    open spec fn obeys_sub_spec() -> bool {
        true
    }

    open spec fn sub_req(self, rhs: Dur) -> bool {
        &&& Self::converts::<Dur>()
        &&& spec_duration_ticks(rhs, Clock::Rep::spec_max(), Clock::spec_scaling_factor()) is Ok
    }

    open spec fn sub_spec(self, rhs: Dur) -> Self {
        Self::spec_new(
            Clock::Rep::spec_from_nat(
                wrapping_diff(
                    self.tick_count(),
                    spec_duration_ticks(rhs, Clock::Rep::spec_max(), Clock::spec_scaling_factor())->Ok_0,
                    Clock::Rep::spec_max(),
                ),
            ),
        )
    }
}

} // verus!
