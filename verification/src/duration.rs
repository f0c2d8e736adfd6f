//! Duration types/units
use crate::fixed_point::{from_ticks, spec_from_ticks, spec_into_ticks, FixedPoint};
use crate::arith::{gcd, lemma_exact_div, lemma_gcd_divides};
use crate::fraction::{lemma_checked_mul_value, Fraction};
use crate::time_int::{spec_checked_mul_fraction, TimeInt};
use crate::ConversionError;
use vstd::prelude::*;

pub mod units;

verus! {

/// The integer of the duration of scaling factor `dsf` (held in an integer type bounded by
/// `dmax`) that is the reciprocal of a rate whose integer `x` is held in an integer type bounded
/// by `rmax` and whose scaling factor is `rsf`, as [`Duration::try_from_rate`] computes it:
/// - the rate brought to hertz (`x × rsf`, formed in the rate's own integer type, when `rsf`
///   is greater than one) must fit, else [`ConversionError::Overflow`];
/// - the product `rsf × dsf` must be formed, else [`ConversionError::Overflow`];
/// - the integer `x` must fit a `u32`, else [`ConversionError::ConversionFailure`];
/// - a zero rate has no reciprocal: [`ConversionError::DivByZero`];
/// - the reciprocal of `x × rsf × dsf` is formed as a fraction (else
///   [`ConversionError::Overflow`]) and truncated to an integer number of ticks of `dsf`.
pub open spec fn spec_try_from_rate(x: nat, rmax: nat, rsf: Fraction, dmax: nat, dsf: Fraction) -> Result<
    nat,
    ConversionError,
> {
    if rsf.spec_gt_one() && spec_checked_mul_fraction(x, rsf, rmax) is None {
        Err(ConversionError::Overflow)
    } else {
        match rsf.spec_checked_mul(dsf) {
            None => Err(ConversionError::Overflow),
            Some(p) => if x > u32::MAX {
                Err(ConversionError::ConversionFailure)
            } else if x == 0 {
                Err(ConversionError::DivByZero)
            } else {
                match p.spec_recip().spec_checked_div(Fraction::spec_new(x, 1)) {
                    None => Err(ConversionError::Overflow),
                    Some(q) => spec_from_ticks(
                        q.spec_numer() / q.spec_denom(),
                        u32::MAX as nat,
                        dsf,
                        dmax,
                        dsf,
                    ),
                }
            },
        }
    }
}

/// The duration that a rate converts to is its exact reciprocal, truncated: with the rate
/// `x × rsf` hertz, the duration holds `floor(1 / (x × rsf × dsf))` units of `dsf` seconds.
pub proof fn lemma_try_from_rate_exact(x: nat, rmax: nat, rsf: Fraction, dmax: nat, dsf: Fraction)
    requires
        x <= rmax,
        rsf.spec_numer() > 0,
        rsf.spec_denom() > 0,
        dsf.spec_numer() > 0,
        dsf.spec_denom() > 0,
        spec_try_from_rate(x, rmax, rsf, dmax, dsf) is Ok,
    ensures
        spec_try_from_rate(x, rmax, rsf, dmax, dsf)->Ok_0 == (rsf.spec_denom() * dsf.spec_denom()) / (
        x * (rsf.spec_numer() * dsf.spec_numer())),
{
    lemma_reciprocal_ticks(x, rsf, dsf);
    let q = rsf.spec_checked_mul(dsf).unwrap().spec_recip().spec_checked_div(Fraction::spec_new(x, 1)).unwrap();
    crate::fixed_point::lemma_rescale_inverse(
        q.spec_numer() / q.spec_denom(),
        dsf.spec_numer(),
        dsf.spec_denom(),
    );
}

/// The truncated reciprocal that [`Duration::try_from_rate`] forms for the rate `x × rsf`, from
/// the reduced product `rsf × dsf`, is `floor(1 / (x × rsf × dsf))`.
proof fn lemma_reciprocal_ticks(x: nat, rsf: Fraction, dsf: Fraction)
    requires
        0 < x <= u32::MAX,
        rsf.spec_numer() > 0,
        rsf.spec_denom() > 0,
        dsf.spec_numer() > 0,
        dsf.spec_denom() > 0,
        rsf.spec_checked_mul(dsf) is Some,
        rsf.spec_checked_mul(dsf).unwrap().spec_recip().spec_checked_div(Fraction::spec_new(x, 1)) is Some,
    ensures
        ({
            let q = rsf.spec_checked_mul(dsf).unwrap().spec_recip().spec_checked_div(
                Fraction::spec_new(x, 1),
            ).unwrap();
            q.spec_numer() / q.spec_denom() == (rsf.spec_denom() * dsf.spec_denom()) / (x * (
            rsf.spec_numer() * dsf.spec_numer()))
        }),
{
    let g = x;
    let p = rsf.spec_checked_mul(dsf).unwrap();
    lemma_checked_mul_value(rsf, dsf);
    let pn = p.spec_numer();
    let pd = p.spec_denom();
    let n1 = rsf.spec_numer();
    let n2 = dsf.spec_numer();
    let a = n1 * n2;
    let b = rsf.spec_denom() * dsf.spec_denom();
    assert(pn > 0) by (nonlinear_arith)
        requires
            pn * b == pd * a,
            pd > 0,
            n1 > 0,
            n2 > 0,
            a == n1 * n2,
    ;
    Fraction::lemma_parts(p);
    Fraction::lemma_spec_new(pd, pn);
    Fraction::lemma_spec_new(g, 1);
    let y = Fraction::spec_new(g, 1);
    let q = p.spec_recip().spec_checked_div(y).unwrap();
    crate::fraction::lemma_checked_div_value(p.spec_recip(), y);
    let qn = q.spec_numer();
    let qd = q.spec_denom();
    let t = qn / qd;
    assert(qn * (pn * g) == pd * qd) by (nonlinear_arith)
        requires
            qn * (pn * g) == qd * (pd * 1),
    ;
    assert(pn * g > 0) by (nonlinear_arith)
        requires
            pn > 0,
            g > 0,
    ;
    crate::arith::lemma_same_ratio_same_quotient(qn, qd, pd, pn * g);
    assert(x * a > 0) by (nonlinear_arith)
        requires
            x > 0,
            n1 > 0,
            n2 > 0,
            a == n1 * n2,
    ;
    assert(pd * (x * a) == b * (pn * g)) by (nonlinear_arith)
        requires
            pn * b == pd * a,
            g == x,
    ;
    crate::arith::lemma_same_ratio_same_quotient(pd, pn * g, b, x * a);
}

/// Only a zero rate has no duration: a rate of integer `0 < x <= u32::MAX` (held in an integer
/// type bounded by `rmax`) whose value in hertz fits that type, whose scaling factor `rsf`
/// multiplies with `dsf`, and whose reciprocal `1 / (x × rsf × dsf)` can be formed as a fraction
/// (with `rsf × dsf == pn/pd` reduced: `pn × (x / gcd(pd, x))` fits `u32`) converts to the
/// duration `floor(1 / (x × rsf × dsf))` whenever that fits the duration's integer type.
pub proof fn lemma_try_from_rate_ok(x: nat, rmax: nat, rsf: Fraction, dmax: nat, dsf: Fraction)
    requires
        0 < x <= u32::MAX,
        x <= rmax,
        rsf.spec_numer() > 0,
        rsf.spec_denom() > 0,
        dsf.spec_numer() > 0,
        dsf.spec_denom() > 0,
        rsf.spec_gt_one() ==> x * rsf.spec_numer() <= rmax,
        rsf.spec_checked_mul(dsf) is Some,
        ({
            let p = rsf.spec_checked_mul(dsf).unwrap();
            p.spec_numer() * (x / gcd(p.spec_denom(), x)) <= u32::MAX
        }),
        (rsf.spec_denom() * dsf.spec_denom()) / (x * (rsf.spec_numer() * dsf.spec_numer())) <= dmax,
    ensures
        spec_try_from_rate(x, rmax, rsf, dmax, dsf) == Ok::<nat, ConversionError>(
            (rsf.spec_denom() * dsf.spec_denom()) / (x * (rsf.spec_numer() * dsf.spec_numer())),
        ),
{
    let p = rsf.spec_checked_mul(dsf).unwrap();
    lemma_checked_mul_value(rsf, dsf);
    let pn = p.spec_numer();
    let pd = p.spec_denom();
    let n1 = rsf.spec_numer();
    let n2 = dsf.spec_numer();
    assert(pn > 0) by (nonlinear_arith)
        requires
            pn * (rsf.spec_denom() * dsf.spec_denom()) == pd * (n1 * n2),
            pd > 0,
            n1 > 0,
            n2 > 0,
    ;
    Fraction::lemma_parts(p);
    Fraction::lemma_spec_new(pd, pn);
    Fraction::lemma_spec_new(x, 1);
    let y = Fraction::spec_new(x, 1);
    assert(gcd(pn, 1) == 1) by {
        reveal_with_fuel(gcd, 2);
        assert(pn % 1 == 0);
    }
    let g1 = gcd(pd, x);
    lemma_gcd_divides(pd, x);
    lemma_exact_div(pd, g1);
    lemma_exact_div(x, g1);
    assert(x / g1 > 0) by (nonlinear_arith)
        requires
            x == g1 * (x / g1),
            x > 0,
    ;
    assert(pn * (x / g1) > 0) by (nonlinear_arith)
        requires
            pn > 0,
            x / g1 > 0,
    ;
    assert(pd / 1 == pd && 1nat / 1 == 1 && pn / 1 == pn);
    assert(p.spec_recip().spec_checked_div(y) is Some);
    lemma_reciprocal_ticks(x, rsf, dsf);
    let q = p.spec_recip().spec_checked_div(y).unwrap();
    crate::fixed_point::lemma_rescale_inverse(
        q.spec_numer() / q.spec_denom(),
        dsf.spec_numer(),
        dsf.spec_denom(),
    );
}

/// An unsigned, fixed-point duration type
///
/// Each implementation defines an _integer_ type and a [`Fraction`] _scaling factor_ (in
/// seconds).
pub trait Duration: Copy {
    /// Construct a `Generic` `Duration` from an _named_ `Duration` (eg.
    /// [`Milliseconds`](units::Milliseconds))
    ///
    /// # Errors
    ///
    /// Failure will only occur if the provided value does not fit in the selected destination type.
    ///
    /// [`ConversionError::Overflow`] : The conversion of the _scaling factor_ causes an overflow.
    ///
    /// [`ConversionError::ConversionFailure`] : The integer conversion to that of the destination
    /// type fails.
    fn try_into_generic<DestInt: TimeInt>(self, scaling_factor: Fraction) -> (r: Result<
        Generic<DestInt>,
        ConversionError,
    >) where Self: FixedPoint
        requires
            scaling_factor.spec_denom() > 0,
        ensures
            match spec_into_ticks(
                self.spec_integer().spec_value(),
                Self::T::spec_max(),
                Self::spec_scaling_factor(),
                DestInt::spec_max(),
                scaling_factor,
            ) {
                Ok(v) => r matches Ok(g) && g.spec_integer().spec_value() == v
                    && g.spec_scaling_factor() == scaling_factor,
                Err(e) => r == Err::<Generic<DestInt>, ConversionError>(e),
            },
    {
        match self.into_ticks::<DestInt>(scaling_factor) {
            Ok(ticks) => Ok(Generic::<DestInt>::new(ticks, scaling_factor)),
            Err(e) => Err(e),
        }
    }

    /// Attempt to construct the given _duration_ type from the given _rate_ type
    ///
    /// (the duration is equal to the reciprocal of the rate)
    ///
    /// # Errors
    ///
    /// Failure will only occur if the provided value does not fit in the selected destination type.
    ///
    /// [`ConversionError::Overflow`] : The conversion of the _scaling factor_ causes an overflow.
    ///
    /// [`ConversionError::ConversionFailure`] : The integer conversion to that of the destination
    /// type fails.
    ///
    /// [`ConversionError::DivByZero`] : The rate is `0`, therefore the reciprocal is undefined.
    fn try_from_rate<Rate: FixedPoint>(rate: Rate) -> (r: Result<Self, ConversionError>) where
        Self: FixedPoint,
        ensures
            match spec_try_from_rate(
                rate.spec_integer().spec_value(),
                Rate::T::spec_max(),
                Rate::spec_scaling_factor(),
                Self::T::spec_max(),
                Self::spec_scaling_factor(),
            ) {
                Ok(v) => r matches Ok(d) && d.spec_integer().spec_value() == v,
                Err(e) => r == Err::<Self, ConversionError>(e),
            },
    {
        proof {
            Rate::lemma_scaling_factor();
            Self::lemma_scaling_factor();
        }
        let rate_sf = Rate::scaling_factor();
        let dest_sf = Self::scaling_factor();
        if rate_sf.gt_one() {
            if rate.integer().checked_mul_fraction(&rate_sf).is_none() {
                return Err(ConversionError::Overflow);
            }
        }
        let product = match rate_sf.checked_mul(&dest_sf) {
            Ok(p) => p,
            Err(e) => return Err(e),
        };
        proof {
            lemma_checked_mul_value(rate_sf, dest_sf);
            assert(product.spec_numer() > 0) by (nonlinear_arith)
                requires
                    product.spec_numer() * (rate_sf.spec_denom() * dest_sf.spec_denom())
                        == product.spec_denom() * (rate_sf.spec_numer() * dest_sf.spec_numer()),
                    product.spec_denom() > 0,
                    rate_sf.spec_numer() > 0,
                    dest_sf.spec_numer() > 0,
            ;
        }
        let wide = rate.integer().to_u64();
        if wide > 0xffff_ffff {
            return Err(ConversionError::ConversionFailure);
        }
        let ticks = wide as u32;
        let quotient = match product.recip().checked_div_integer(ticks) {
            Ok(q) => q,
            Err(e) => return Err(e),
        };
        proof {
            Fraction::lemma_spec_new(ticks as nat, 1);
            Fraction::lemma_parts(product);
            Fraction::lemma_spec_new(product.spec_denom(), product.spec_numer());
            crate::fraction::lemma_checked_div_value(
                product.spec_recip(),
                Fraction::spec_new(ticks as nat, 1),
            );
        }
        from_ticks::<u32, Self>(quotient.to_integer(), dest_sf)
    }
}

/// The `Generic` `Duration` type allows arbitrary _scaling factor_s to be used without having to
/// impl FixedPoint.
///
/// The purpose of this type is to allow a simple `Duration` that can be defined at run-time. It
/// does this by replacing the `const` _scaling factor_ with a struct field.
#[derive(Debug, Copy, Clone, Eq, PartialEq)]
pub struct Generic<T> {
    integer: T,
    scaling_factor: Fraction,
}

impl<T> Generic<T> {
    /// The _integer_ value
    pub closed spec fn spec_integer(self) -> T {
        self.integer
    }

    /// The _scaling factor_
    pub closed spec fn spec_scaling_factor(self) -> Fraction {
        self.scaling_factor
    }

    /// Constructs a new (ram) fixed-point `Generic` `Duration` value
    pub fn new(integer: T, scaling_factor: Fraction) -> (r: Self)
        ensures
            r.spec_integer() == integer,
            r.spec_scaling_factor() == scaling_factor,
    {
        Self { integer, scaling_factor }
    }

    /// Returns the _integer_ value
    pub fn integer(&self) -> (r: &T)
        ensures
            *r == self.spec_integer(),
    {
        &self.integer
    }

    /// Returns the _scaling factor_ [`Fraction`] value
    pub fn scaling_factor(&self) -> (r: &Fraction)
        ensures
            *r == self.spec_scaling_factor(),
    {
        &self.scaling_factor
    }
}

impl<T: TimeInt> Duration for Generic<T> {

}

/// The whole seconds of a core duration, as `Duration::as_secs` counts them.
pub uninterp spec fn core_duration_secs(duration: core::time::Duration) -> u64;

/// The whole milliseconds of a core duration, as `Duration::as_millis` counts them.
pub uninterp spec fn core_duration_millis(duration: core::time::Duration) -> u128;

/// The whole microseconds of a core duration, as `Duration::as_micros` counts them.
pub uninterp spec fn core_duration_micros(duration: core::time::Duration) -> u128;

/// The whole nanoseconds of a core duration, as `Duration::as_nanos` counts them.
pub uninterp spec fn core_duration_nanos(duration: core::time::Duration) -> u128;

/// The core duration that `Duration::from_secs` makes of a number of whole seconds.
pub uninterp spec fn core_duration_of_secs(secs: u64) -> core::time::Duration;

/// The core duration that `Duration::from_millis` makes of a number of milliseconds.
pub uninterp spec fn core_duration_of_millis(millis: u64) -> core::time::Duration;

/// The core duration that `Duration::from_micros` makes of a number of microseconds.
pub uninterp spec fn core_duration_of_micros(micros: u64) -> core::time::Duration;

/// The core duration that `Duration::from_nanos` makes of a number of nanoseconds.
pub uninterp spec fn core_duration_of_nanos(nanos: u64) -> core::time::Duration;

/// Wraps `core::time::Duration::from_secs`: the core duration of `secs` whole seconds, which
/// holds `secs` seconds, `secs × 1000` milliseconds, and so on.
#[verifier::external_body]
pub(crate) fn core_duration_from_secs(secs: u64) -> (r: core::time::Duration)
    ensures
        r == core_duration_of_secs(secs),
        core_duration_secs(r) == secs,
        core_duration_millis(r) == secs * 1_000,
        core_duration_micros(r) == secs * 1_000_000,
        core_duration_nanos(r) == secs * 1_000_000_000,
{
    core::time::Duration::from_secs(secs)
}

/// Wraps `core::time::Duration::from_millis`: the core duration of `millis` milliseconds,
/// which holds `millis / 1000` whole seconds, `millis` milliseconds, and so on.
#[verifier::external_body]
pub(crate) fn core_duration_from_millis(millis: u64) -> (r: core::time::Duration)
    ensures
        r == core_duration_of_millis(millis),
        core_duration_secs(r) == millis / 1_000,
        core_duration_millis(r) == millis,
        core_duration_micros(r) == millis * 1_000,
        core_duration_nanos(r) == millis * 1_000_000,
{
    core::time::Duration::from_millis(millis)
}

/// Wraps `core::time::Duration::from_micros`: the core duration of `micros` microseconds,
/// which holds `micros / 1_000_000` whole seconds, `micros / 1000` whole milliseconds, and so
/// on.
#[verifier::external_body]
pub(crate) fn core_duration_from_micros(micros: u64) -> (r: core::time::Duration)
    ensures
        r == core_duration_of_micros(micros),
        core_duration_secs(r) == micros / 1_000_000,
        core_duration_millis(r) == micros / 1_000,
        core_duration_micros(r) == micros,
        core_duration_nanos(r) == micros * 1_000,
{
    core::time::Duration::from_micros(micros)
}

/// Wraps `core::time::Duration::from_nanos`: the core duration of `nanos` nanoseconds, which
/// holds `nanos / 1_000_000_000` whole seconds, `nanos / 1_000_000` whole milliseconds, and so
/// on.
#[verifier::external_body]
pub(crate) fn core_duration_from_nanos(nanos: u64) -> (r: core::time::Duration)
    ensures
        r == core_duration_of_nanos(nanos),
        core_duration_secs(r) == nanos / 1_000_000_000,
        core_duration_millis(r) == nanos / 1_000_000,
        core_duration_micros(r) == nanos / 1_000,
        core_duration_nanos(r) == nanos,
{
    core::time::Duration::from_nanos(nanos)
}

/// Wraps `core::time::Duration::as_secs`: the whole seconds of a core duration.
#[verifier::external_body]
pub(crate) fn core_duration_as_secs(duration: &core::time::Duration) -> (r: u64)
    ensures
        r == core_duration_secs(*duration),
{
    duration.as_secs()
}

/// Wraps `core::time::Duration::as_millis`: the whole milliseconds of a core duration.
#[verifier::external_body]
pub(crate) fn core_duration_as_millis(duration: &core::time::Duration) -> (r: u128)
    ensures
        r == core_duration_millis(*duration),
{
    duration.as_millis()
}

/// Wraps `core::time::Duration::as_micros`: the whole microseconds of a core duration.
#[verifier::external_body]
pub(crate) fn core_duration_as_micros(duration: &core::time::Duration) -> (r: u128)
    ensures
        r == core_duration_micros(*duration),
{
    duration.as_micros()
}

/// Wraps `core::time::Duration::as_nanos`: the whole nanoseconds of a core duration.
#[verifier::external_body]
pub(crate) fn core_duration_as_nanos(duration: &core::time::Duration) -> (r: u128)
    ensures
        r == core_duration_nanos(*duration),
{
    duration.as_nanos()
}

} // verus!
