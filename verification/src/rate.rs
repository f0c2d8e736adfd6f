//! Rate-based types/units
use crate::fixed_point::{from_ticks, spec_from_ticks, spec_into_ticks, widen, FixedPoint};
use crate::fraction::{lemma_checked_mul_value, Fraction};
use crate::time_int::TimeInt;
use crate::ConversionError;
use vstd::prelude::*;

pub mod units;

verus! {

/// The integer of the duration of scaling factor `dsf` (held in an integer type bounded by
/// `dmax`) that is the reciprocal of the rate whose integer `x` is held in an integer type
/// bounded by `smax` and whose scaling factor is `ssf`, as [`Rate::to_duration`] computes it:
/// with `ssf × dsf == p/q` (reduced), the number of ticks `q / (x × p)` is formed in the wider
/// of the two integer types, then converted to the duration's integer type.
pub open spec fn spec_to_duration(x: nat, smax: nat, ssf: Fraction, dmax: nat, dsf: Fraction) -> Result<
    nat,
    ConversionError,
> {
    match ssf.spec_checked_mul(dsf) {
        None => Err(ConversionError::Overflow),
        Some(p) => {
            let w = if smax >= dmax {
                smax
            } else {
                dmax
            };
            if x * p.spec_numer() > w {
                Err(ConversionError::Overflow)
            } else if x * p.spec_numer() == 0 {
                Err(ConversionError::DivByZero)
            } else {
                spec_from_ticks(p.spec_denom() / (x * p.spec_numer()), w, dsf, dmax, dsf)
            }
        },
    }
}

/// The duration that a rate converts to never exceeds the exact reciprocal of the rate: with
/// the rate `x × ssf` hertz and the duration `v × dsf` seconds, `(v × dsf) × (x × ssf) <= 1`.
pub proof fn lemma_to_duration_truncates(x: nat, smax: nat, ssf: Fraction, dmax: nat, dsf: Fraction)
    requires
        ssf.spec_numer() > 0,
        ssf.spec_denom() > 0,
        dsf.spec_numer() > 0,
        dsf.spec_denom() > 0,
        spec_to_duration(x, smax, ssf, dmax, dsf) is Ok,
    ensures
        spec_to_duration(x, smax, ssf, dmax, dsf)->Ok_0 * x * (ssf.spec_numer() * dsf.spec_numer())
            <= ssf.spec_denom() * dsf.spec_denom(),
{
    let v = spec_to_duration(x, smax, ssf, dmax, dsf)->Ok_0;
    let p = ssf.spec_checked_mul(dsf).unwrap();
    lemma_checked_mul_value(ssf, dsf);
    let pn = p.spec_numer();
    let pd = p.spec_denom();
    let w = if smax >= dmax {
        smax
    } else {
        dmax
    };
    let t = pd / (x * pn);
    crate::fixed_point::lemma_from_ticks_truncates(t, w, dsf, dmax, dsf);
    let n = dsf.spec_numer();
    let d = dsf.spec_denom();
    assert(v <= t) by (nonlinear_arith)
        requires
            v * (d * n) <= t * (n * d),
            n > 0,
            d > 0,
    ;
    assert(t * (x * pn) <= pd) by {
        vstd::arithmetic::div_mod::lemma_fundamental_div_mod(pd as int, (x * pn) as int);
        vstd::arithmetic::mul::lemma_mul_is_commutative((x * pn) as int, t as int);
    }
    let a = ssf.spec_numer() * dsf.spec_numer();
    let b = ssf.spec_denom() * dsf.spec_denom();
    assert(v * x * a <= b) by (nonlinear_arith)
        requires
            v <= t,
            t * (x * pn) <= pd,
            pn * b == pd * a,
            pd > 0,
    {
        assert(v * (x * pn) <= t * (x * pn));
        assert(v * (x * pn) * b <= pd * b);
        assert(v * x * (pn * b) == pd * (v * x * a));
        assert(pd * (v * x * a) <= pd * b);
    }
}

/// The duration that a rate converts to is its exact reciprocal, truncated: with the rate
/// `x × ssf` hertz, the duration holds `floor(1 / (x × ssf × dsf))` units of `dsf` seconds.
pub proof fn lemma_to_duration_exact(x: nat, smax: nat, ssf: Fraction, dmax: nat, dsf: Fraction)
    requires
        ssf.spec_numer() > 0,
        ssf.spec_denom() > 0,
        dsf.spec_numer() > 0,
        dsf.spec_denom() > 0,
        spec_to_duration(x, smax, ssf, dmax, dsf) is Ok,
    ensures
        spec_to_duration(x, smax, ssf, dmax, dsf)->Ok_0 == (ssf.spec_denom() * dsf.spec_denom()) / (
        x * (ssf.spec_numer() * dsf.spec_numer())),
{
    lemma_reciprocal_ticks(x, ssf, dsf);
    let p = ssf.spec_checked_mul(dsf).unwrap();
    crate::fixed_point::lemma_rescale_inverse(
        p.spec_denom() / (x * p.spec_numer()),
        dsf.spec_numer(),
        dsf.spec_denom(),
    );
}

/// The ticks that [`Rate::to_duration`] forms for the rate `x × ssf`, from the reduced product
/// `ssf × dsf == pn/pd`, are `pd / (x × pn) == floor(1 / (x × ssf × dsf))`.
proof fn lemma_reciprocal_ticks(x: nat, ssf: Fraction, dsf: Fraction)
    requires
        ssf.spec_numer() > 0,
        ssf.spec_denom() > 0,
        dsf.spec_numer() > 0,
        dsf.spec_denom() > 0,
        ssf.spec_checked_mul(dsf) is Some,
        x * ssf.spec_checked_mul(dsf).unwrap().spec_numer() > 0,
    ensures
        ({
            let p = ssf.spec_checked_mul(dsf).unwrap();
            p.spec_denom() / (x * p.spec_numer()) == (ssf.spec_denom() * dsf.spec_denom()) / (x * (
            ssf.spec_numer() * dsf.spec_numer()))
        }),
{
    let p = ssf.spec_checked_mul(dsf).unwrap();
    lemma_checked_mul_value(ssf, dsf);
    let pn = p.spec_numer();
    let pd = p.spec_denom();
    let a = ssf.spec_numer() * dsf.spec_numer();
    let b = ssf.spec_denom() * dsf.spec_denom();
    let n1 = ssf.spec_numer();
    let n2 = dsf.spec_numer();
    assert(x * a > 0) by (nonlinear_arith)
        requires
            x * pn > 0,
            n1 > 0,
            n2 > 0,
            a == n1 * n2,
    ;
    assert(pd * (x * a) == b * (x * pn)) by (nonlinear_arith)
        requires
            pn * b == pd * a,
    ;
    crate::arith::lemma_same_ratio_same_quotient(pd, x * pn, b, x * a);
}

/// A rate converts to a duration unless it is zero or its integer times the reduced numerator
/// `pn` of `ssf × dsf == pn/pd` overflows the wider of the two integer types: whenever
/// `0 < x × pn <= max(smax, dmax)` and the reciprocal `floor(1 / (x × ssf × dsf))` fits the
/// duration's integer type, the duration is that reciprocal.
pub proof fn lemma_to_duration_ok(x: nat, smax: nat, ssf: Fraction, dmax: nat, dsf: Fraction)
    requires
        ssf.spec_numer() > 0,
        ssf.spec_denom() > 0,
        dsf.spec_numer() > 0,
        dsf.spec_denom() > 0,
        ssf.spec_checked_mul(dsf) is Some,
        0 < x * ssf.spec_checked_mul(dsf).unwrap().spec_numer(),
        x * ssf.spec_checked_mul(dsf).unwrap().spec_numer() <= smax || x * ssf.spec_checked_mul(
            dsf,
        ).unwrap().spec_numer() <= dmax,
        (ssf.spec_denom() * dsf.spec_denom()) / (x * (ssf.spec_numer() * dsf.spec_numer())) <= dmax,
    ensures
        spec_to_duration(x, smax, ssf, dmax, dsf) == Ok::<nat, ConversionError>(
            (ssf.spec_denom() * dsf.spec_denom()) / (x * (ssf.spec_numer() * dsf.spec_numer())),
        ),
{
    lemma_reciprocal_ticks(x, ssf, dsf);
    let p = ssf.spec_checked_mul(dsf).unwrap();
    crate::fixed_point::lemma_rescale_inverse(
        p.spec_denom() / (x * p.spec_numer()),
        dsf.spec_numer(),
        dsf.spec_denom(),
    );
}

/// An unsigned, fixed-point rate type
///
/// Each implementation defines an _integer_ type and a [`Fraction`] _scaling factor_ (in
/// hertz).
pub trait Rate: Copy {
    /// Construct a `Generic` `Rate` from an _named_ `Rate`
    ///
    /// # Errors
    ///
    /// Failure will only occur if the provided value does not fit in the selected destination type.
    ///
    /// [`ConversionError::Overflow`] : The conversion of the _scaling factor_ causes an overflow.
    ///
    /// [`ConversionError::ConversionFailure`] : The integer conversion to that of the destination
    /// type fails.
    fn to_generic<DestInt: TimeInt>(self, scaling_factor: Fraction) -> (r: Result<
        Generic<DestInt>,
        ConversionError,
    >) where Self: FixedPoint
        requires
            scaling_factor.spec_denom() > 0,
        ensures
            match spec_into_ticks(
                self.spec_integer().spec_value(),
                Self::T::spec_max(),
                Self::spec_scaling_factor(),
                DestInt::spec_max(),
                scaling_factor,
            ) {
                Ok(v) => r matches Ok(g) && g.spec_integer().spec_value() == v
                    && g.spec_scaling_factor() == scaling_factor,
                Err(e) => r == Err::<Generic<DestInt>, ConversionError>(e),
            },
    {
        match self.into_ticks::<DestInt>(scaling_factor) {
            Ok(ticks) => Ok(Generic::<DestInt>::new(ticks, scaling_factor)),
            Err(e) => Err(e),
        }
    }

    /// Convert to _named_ duration
    ///
    /// (the rate is equal to the reciprocal of the duration)
    ///
    /// # Errors
    ///
    /// Failure will only occur if the provided value does not fit in the selected destination type.
    ///
    /// [`ConversionError::Overflow`] : The conversion of the _scaling factor_ causes an overflow.
    ///
    /// [`ConversionError::DivByZero`] : The rate is `0`, therefore the reciprocal is undefined.
    fn to_duration<Duration: FixedPoint>(&self) -> (r: Result<Duration, ConversionError>) where
        Self: FixedPoint,
        ensures
            match spec_to_duration(
                self.spec_integer().spec_value(),
                Self::T::spec_max(),
                Self::spec_scaling_factor(),
                Duration::T::spec_max(),
                Duration::spec_scaling_factor(),
            ) {
                Ok(v) => r matches Ok(d) && d.spec_integer().spec_value() == v,
                Err(e) => r == Err::<Duration, ConversionError>(e),
            },
    {
        proof {
            Self::lemma_scaling_factor();
            Duration::lemma_scaling_factor();
            Self::T::lemma_max();
            Duration::T::lemma_max();
        }
        let self_sf = Self::scaling_factor();
        let dest_sf = Duration::scaling_factor();
        let product = match self_sf.checked_mul(&dest_sf) {
            Ok(p) => p,
            Err(e) => return Err(e),
        };
        proof {
            lemma_checked_mul_value(self_sf, dest_sf);
            assert(product.spec_numer() > 0) by (nonlinear_arith)
                requires
                    product.spec_numer() * (self_sf.spec_denom() * dest_sf.spec_denom())
                        == product.spec_denom() * (self_sf.spec_numer() * dest_sf.spec_numer()),
                    product.spec_denom() > 0,
                    self_sf.spec_numer() > 0,
                    dest_sf.spec_numer() > 0,
            ;
        }
        let conversion_factor = product.recip();
        if Self::T::max_value().to_u64() >= Duration::T::max_value().to_u64() {
            let numerator = Self::T::from_u32(*conversion_factor.numerator());
            let denominator = match self.integer().checked_mul(
                &Self::T::from_u32(*conversion_factor.denominator()),
            ) {
                Some(d) => d,
                None => return Err(ConversionError::Overflow),
            };
            let ticks = match numerator.checked_div(&denominator) {
                Some(t) => t,
                None => return Err(ConversionError::DivByZero),
            };
            from_ticks::<Self::T, Duration>(ticks, dest_sf)
        } else {
            let integer = widen::<Self::T, Duration::T>(*self.integer());
            let numerator = Duration::T::from_u32(*conversion_factor.numerator());
            let denominator = match integer.checked_mul(
                &Duration::T::from_u32(*conversion_factor.denominator()),
            ) {
                Some(d) => d,
                None => return Err(ConversionError::Overflow),
            };
            let ticks = match numerator.checked_div(&denominator) {
                Some(t) => t,
                None => return Err(ConversionError::DivByZero),
            };
            from_ticks::<Duration::T, Duration>(ticks, dest_sf)
        }
    }
}

/// The `Generic` `Rate` type allows arbitrary _scaling factor_s to be used without having to impl
/// FixedPoint.
///
/// The purpose of this type is to allow a simple `Rate` that can be defined at run-time. It does
/// this by replacing the `const` _scaling factor_ with a field.
#[derive(Debug, Copy, Clone, Eq, PartialEq)]
pub struct Generic<T> {
    integer: T,
    scaling_factor: Fraction,
}

impl<T> Generic<T> {
    /// The _integer_ value
    pub closed spec fn spec_integer(self) -> T {
        self.integer
    }

    /// The _scaling factor_
    pub closed spec fn spec_scaling_factor(self) -> Fraction {
        self.scaling_factor
    }

    /// The `Generic` `Rate` holding `integer` and `scaling_factor`
    pub closed spec fn spec_new(integer: T, scaling_factor: Fraction) -> Self {
        Generic { integer, scaling_factor }
    }

    /// Constructs a new (ram) fixed-point `Generic` `Rate` value
    pub fn new(integer: T, scaling_factor: Fraction) -> (r: Self)
        ensures
            r == Self::spec_new(integer, scaling_factor),
            r.spec_integer() == integer,
            r.spec_scaling_factor() == scaling_factor,
    {
        Self { integer, scaling_factor }
    }

    /// Returns the _integer_ value
    pub fn integer(&self) -> (r: &T)
        ensures
            *r == self.spec_integer(),
    {
        &self.integer
    }

    /// Returns the _scaling factor_ [`Fraction`] value
    pub fn scaling_factor(&self) -> (r: &Fraction)
        ensures
            *r == self.spec_scaling_factor(),
    {
        &self.scaling_factor
    }
}

impl<T: TimeInt> Rate for Generic<T> {

}

} // verus!
