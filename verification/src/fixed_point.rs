//! Fixed-point values
use crate::arith::{rescale, rescale_u128};
use crate::fraction::{lemma_checked_div_value, scale, Fraction};
use crate::time_int::{decimal, decimal_string, TimeInt};
use crate::ConversionError;
use core::cmp::Ordering;
use vstd::prelude::*;

verus! {

/// The executable result `r` is the integer result `s`: the same error, or a value holding
/// the same integer.
pub open spec fn result_holds<W: TimeInt>(r: Result<W, ConversionError>, s: Result<nat, ConversionError>) -> bool {
    match s {
        Ok(v) => r matches Ok(x) && x.spec_value() == v,
        Err(e) => r == Err::<W, ConversionError>(e),
    }
}

/// `r` is the fixed-point value whose integer `s` describes, or the error `s` holds.
pub open spec fn duration_holds<D: FixedPoint>(r: Result<D, ConversionError>, s: Result<nat, ConversionError>) -> bool {
    match s {
        Ok(v) => r matches Ok(x) && x.spec_integer().spec_value() == v,
        Err(e) => r == Err::<D, ConversionError>(e),
    }
}

/// The integer of a fixed-point value with _scaling factor_ `dsf` held in an integer type
/// bounded by `dmax`, made from `t` ticks of `sf` seconds (or hertz) held in an integer type
/// bounded by `smax`: the exact value `t × sf / dsf`, truncated toward zero.
///
/// It fails only when that value does not fit the destination type:
/// [`ConversionError::ConversionFailure`] when it would fit the (wider) source type,
/// [`ConversionError::Overflow`] when it fits neither. A destination scaling factor of zero
/// can hold no value: [`ConversionError::Unspecified`].
pub open spec fn spec_from_ticks(t: nat, smax: nat, sf: Fraction, dmax: nat, dsf: Fraction) -> Result<
    nat,
    ConversionError,
> {
    if dsf.spec_numer() == 0 {
        Err(ConversionError::Unspecified)
    } else {
        let v = rescale(t, sf.spec_numer(), sf.spec_denom(), dsf.spec_numer(), dsf.spec_denom());
        if v <= dmax {
            Ok(v)
        } else if v <= smax {
            Err(ConversionError::ConversionFailure)
        } else {
            Err(ConversionError::Overflow)
        }
    }
}

/// The number of ticks of `fraction` seconds (or hertz), held in an integer type bounded by
/// `tmax`, of a fixed-point value whose integer `x` is held in an integer type bounded by `smax`
/// and whose scaling factor is `ssf`: the same conversion as [`spec_from_ticks`].
pub open spec fn spec_into_ticks(x: nat, smax: nat, ssf: Fraction, tmax: nat, fraction: Fraction) -> Result<
    nat,
    ConversionError,
> {
    spec_from_ticks(x, smax, ssf, tmax, fraction)
}

/// Converting the fixed-point value `s` into the fixed-point type `D`.
pub open spec fn spec_convert<S: FixedPoint, D: FixedPoint>(s: S) -> Result<nat, ConversionError> {
    spec_from_ticks(
        s.spec_integer().spec_value(),
        S::T::spec_max(),
        S::spec_scaling_factor(),
        D::T::spec_max(),
        D::spec_scaling_factor(),
    )
}

/// The value of `a` equals that of `b`: the one with the smaller scaling factor is converted
/// to the type of the other, and the integers are compared; values that cannot be converted
/// are not equal.
pub open spec fn spec_fixed_eq<A: FixedPoint, B: FixedPoint>(a: A, b: B) -> bool {
    if A::spec_scaling_factor().spec_lt_value(B::spec_scaling_factor()) {
        match spec_convert::<B, A>(b) {
            Ok(v) => a.spec_integer().spec_value() == v,
            Err(_) => false,
        }
    } else {
        match spec_convert::<A, B>(a) {
            Ok(v) => v == b.spec_integer().spec_value(),
            Err(_) => false,
        }
    }
}

/// The ordering of two integers.
pub open spec fn integer_order(x: nat, y: nat) -> Ordering {
    if x < y {
        Ordering::Less
    } else if x == y {
        Ordering::Equal
    } else {
        Ordering::Greater
    }
}

/// The ordering of the values of `a` and `b`, as [`spec_fixed_eq`] compares them: a value that
/// cannot be converted into the type with the smaller scaling factor is the greater.
pub open spec fn fixed_order<A: FixedPoint, B: FixedPoint>(a: A, b: B) -> Ordering {
    if A::spec_scaling_factor().spec_lt_value(B::spec_scaling_factor()) {
        match spec_convert::<B, A>(b) {
            Ok(v) => integer_order(a.spec_integer().spec_value(), v),
            Err(_) => Ordering::Less,
        }
    } else {
        match spec_convert::<A, B>(a) {
            Ok(v) => integer_order(v, b.spec_integer().spec_value()),
            Err(_) => Ordering::Greater,
        }
    }
}

/// Fixed-point value type
///
/// QX.32 where X: bit-width of `T`
pub trait FixedPoint: Sized + Copy {
    /// The _integer_ (magnitude) type
    type T: TimeInt;

    /// The fractional _scaling factor_
    spec fn spec_scaling_factor() -> Fraction;

    /// The scaling factor is a positive fraction with a positive denominator.
    proof fn lemma_scaling_factor()
        ensures
            Self::spec_scaling_factor().spec_numer() > 0,
            Self::spec_scaling_factor().spec_denom() > 0,
    ;

    /// The fractional _scaling factor_
    fn scaling_factor() -> (r: Fraction)
        ensures
            r == Self::spec_scaling_factor(),
    ;

    /// The integer held
    spec fn spec_integer(self) -> Self::T;

    /// Not generally useful to call directly
    ///
    /// It only exists to allow FixedPoint methods with default definitions to create a
    /// new fixed-point type
    fn new(value: Self::T) -> (r: Self)
        ensures
            r.spec_integer() == value,
    ;

    /// Returns the integer value of the `FixedPoint`
    fn integer(&self) -> (r: &Self::T)
        ensures
            *r == self.spec_integer(),
    ;

    /// Returns the _integer_ of the fixed-point value after converting to the _scaling factor_
    /// provided
    ///
    /// # Errors
    ///
    /// Failure will only occur if the provided value does not fit in the selected destination type.
    ///
    /// [`ConversionError::Overflow`] : The converted value fits neither the integer type of
    /// `self` nor the destination's.
    /// [`ConversionError::ConversionFailure`] : The converted value fits the integer type of
    /// `self` but not the destination's.
    /// [`ConversionError::Unspecified`] : The provided fraction is zero.
    fn into_ticks<T: TimeInt>(self, fraction: Fraction) -> (r: Result<T, ConversionError>)
        requires
            fraction.spec_denom() > 0,
        ensures
            result_holds(
                r,
                spec_into_ticks(
                    self.spec_integer().spec_value(),
                    Self::T::spec_max(),
                    Self::spec_scaling_factor(),
                    T::spec_max(),
                    fraction,
                ),
            ),
    {
        proof {
            Self::lemma_scaling_factor();
            Self::T::lemma_range(self.spec_integer(), self.spec_integer());
        }
        convert_ticks::<T>(
            self.integer().to_u64(),
            Self::T::max_value().to_u64(),
            Self::scaling_factor(),
            fraction,
        )
    }

    /// Returns the minimum integer value
    fn min_value() -> (r: Self::T)
        ensures
            r.spec_value() == 0,
    {
        <Self::T as TimeInt>::min_value()
    }

    /// Returns the maximum integer value
    fn max_value() -> (r: Self::T)
        ensures
            r.spec_value() == Self::T::spec_max(),
    {
        <Self::T as TimeInt>::max_value()
    }
}

/// Converting a fixed-point value into its own type leaves it unchanged.
pub proof fn lemma_convert_to_self<S: FixedPoint>(s: S)
    ensures
        spec_convert::<S, S>(s) == Ok::<nat, ConversionError>(s.spec_integer().spec_value()),
{
    S::lemma_scaling_factor();
    S::T::lemma_range(s.spec_integer(), s.spec_integer());
    let f = S::spec_scaling_factor();
    let t = s.spec_integer().spec_value();
    lemma_rescale_inverse(t, f.spec_numer(), f.spec_denom());
}

/// Scaling by a nonzero fraction and dividing by it gives back the value: `t × (n / d) /
/// (n / d) == t`.
pub proof fn lemma_rescale_inverse(t: nat, n: nat, d: nat)
    requires
        n > 0,
        d > 0,
    ensures
        rescale(t, n, d, n, d) == t,
{
    assert(t * n * d == t * (d * n)) by (nonlinear_arith);
    assert(d * n > 0) by (nonlinear_arith)
        requires
            n > 0,
            d > 0,
    ;
    vstd::arithmetic::div_mod::lemma_div_multiples_vanish(t as int, (d * n) as int);
    vstd::arithmetic::mul::lemma_mul_is_commutative((d * n) as int, t as int);
}

/// Equality and ordering of fixed-point values agree: two values are equal exactly when they
/// compare as `Equal`.
pub proof fn lemma_eq_iff_order_equal<A: FixedPoint, B: FixedPoint>(a: A, b: B)
    ensures
        spec_fixed_eq(a, b) <==> fixed_order(a, b) == Ordering::Equal,
{
}

/// Ordering is antisymmetric between values of different scaling factors: `b` compares to `a`
/// the reverse of how `a` compares to `b`.
pub proof fn lemma_order_reverses<A: FixedPoint, B: FixedPoint>(a: A, b: B)
    requires
        !A::spec_scaling_factor().same_value(B::spec_scaling_factor()),
    ensures
        fixed_order(b, a) == match fixed_order(a, b) {
            Ordering::Less => Ordering::Greater,
            Ordering::Equal => Ordering::Equal,
            Ordering::Greater => Ordering::Less,
        },
        spec_fixed_eq(a, b) == spec_fixed_eq(b, a),
{
}

/// Conversions truncate exactly: the integer `v` that a conversion of `t` ticks of `sf` into
/// units of `dsf` gives is the exact value `t × sf / dsf` rounded down, so that
/// `v × dsf <= t × sf < (v + 1) × dsf`.
pub proof fn lemma_from_ticks_truncates(t: nat, smax: nat, sf: Fraction, dmax: nat, dsf: Fraction)
    requires
        sf.spec_denom() > 0,
        dsf.spec_numer() > 0,
        dsf.spec_denom() > 0,
        spec_from_ticks(t, smax, sf, dmax, dsf) is Ok,
    ensures
        spec_from_ticks(t, smax, sf, dmax, dsf)->Ok_0 * (sf.spec_denom() * dsf.spec_numer()) <= t * (
        sf.spec_numer() * dsf.spec_denom()),
        t * (sf.spec_numer() * dsf.spec_denom()) < (spec_from_ticks(t, smax, sf, dmax, dsf)->Ok_0
            + 1) * (sf.spec_denom() * dsf.spec_numer()),
{
    let v = spec_from_ticks(t, smax, sf, dmax, dsf)->Ok_0;
    let n1 = sf.spec_numer();
    let d1 = sf.spec_denom();
    let n2 = dsf.spec_numer();
    let d2 = dsf.spec_denom();
    let num = t * n1 * d2;
    let den = d1 * n2;
    assert(den > 0) by (nonlinear_arith)
        requires
            d1 > 0,
            n2 > 0,
            den == d1 * n2,
    ;
    assert(v == num / den);
    vstd::arithmetic::div_mod::lemma_fundamental_div_mod(num as int, den as int);
    vstd::arithmetic::div_mod::lemma_mod_bound(num as int, den as int);
    assert(t * (n1 * d2) == num) by (nonlinear_arith)
        requires
            num == t * n1 * d2,
    ;
    assert(v * den <= num < (v + 1) * den) by (nonlinear_arith)
        requires
            num == den * v + num % den,
            0 <= num % den < den,
    ;
}

/// Converting to a finer scaling factor and back is lossless: when `x` units of `sf` are a
/// whole number of ticks of `f` (`x × sf / f` has no remainder), converting `x` into ticks of
/// `f` and those ticks back into units of `sf` gives `x` again.
pub proof fn lemma_round_trip(x: nat, smax: nat, sf: Fraction, tmax: nat, f: Fraction)
    requires
        x <= smax,
        sf.spec_numer() > 0,
        sf.spec_denom() > 0,
        f.spec_numer() > 0,
        f.spec_denom() > 0,
        (x * sf.spec_numer() * f.spec_denom()) % (sf.spec_denom() * f.spec_numer()) == 0,
        spec_into_ticks(x, smax, sf, tmax, f) is Ok,
    ensures
        spec_from_ticks(spec_into_ticks(x, smax, sf, tmax, f)->Ok_0, tmax, f, smax, sf) == Ok::<
            nat,
            ConversionError,
        >(x),
{
    let t = spec_into_ticks(x, smax, sf, tmax, f)->Ok_0;
    let n1 = sf.spec_numer();
    let d1 = sf.spec_denom();
    let n2 = f.spec_numer();
    let d2 = f.spec_denom();
    let num = x * n1 * d2;
    let den = d1 * n2;
    assert(den > 0) by (nonlinear_arith)
        requires
            d1 > 0,
            n2 > 0,
            den == d1 * n2,
    ;
    vstd::arithmetic::div_mod::lemma_fundamental_div_mod(num as int, den as int);
    assert(t == num / den);
    let back = t * n2 * d1;
    let bden = d2 * n1;
    assert(back == x * bden) by (nonlinear_arith)
        requires
            num == den * t,
            num == x * n1 * d2,
            den == d1 * n2,
            back == t * n2 * d1,
            bden == d2 * n1,
    ;
    assert(bden > 0) by (nonlinear_arith)
        requires
            d2 > 0,
            n1 > 0,
            bden == d2 * n1,
    ;
    vstd::arithmetic::div_mod::lemma_div_multiples_vanish(x as int, bden as int);
    vstd::arithmetic::mul::lemma_mul_is_commutative(x as int, bden as int);
    assert(rescale(t, n2, d2, n1, d1) == x);
}

/// Operations between fixed-point values of any units and integer types, available on every
/// [`FixedPoint`] type.
pub trait FixedPointOps: FixedPoint {
    /// Converts a fixed-point value of another type (units or integer width) into this type
    ///
    /// # Errors
    ///
    /// As [`from_ticks`]
    fn try_convert_from<Rhs: FixedPoint>(rhs: Rhs) -> (r: Result<Self, ConversionError>)
        ensures
            match spec_convert::<Rhs, Self>(rhs) {
                Ok(v) => r matches Ok(x) && x.spec_integer().spec_value() == v,
                Err(e) => r == Err::<Self, ConversionError>(e),
            },
    {
        convert::<Rhs, Self>(rhs)
    }

    /// Panicky addition: the sum, in the units and integer type of `self`
    fn add<Rhs: FixedPoint>(self, rhs: Rhs) -> (r: Self)
        requires
            spec_convert::<Rhs, Self>(rhs) is Ok,
            self.spec_integer().spec_value() + spec_convert::<Rhs, Self>(rhs)->Ok_0
                <= Self::T::spec_max(),
        ensures
            r.spec_integer().spec_value() == self.spec_integer().spec_value()
                + spec_convert::<Rhs, Self>(rhs)->Ok_0,
    {
        match convert::<Rhs, Self>(rhs) {
            Ok(rhs) => match self.integer().checked_add(rhs.integer()) {
                Some(sum) => Self::new(sum),
                None => {
                    proof {
                        assert(false);
                    }
                    self
                },
            },
            Err(_) => {
                proof {
                    assert(false);
                }
                self
            },
        }
    }

    /// Panicky subtraction: the difference, in the units and integer type of `self`
    fn sub<Rhs: FixedPoint>(self, rhs: Rhs) -> (r: Self)
        requires
            spec_convert::<Rhs, Self>(rhs) is Ok,
            self.spec_integer().spec_value() >= spec_convert::<Rhs, Self>(rhs)->Ok_0,
        ensures
            r.spec_integer().spec_value() == self.spec_integer().spec_value()
                - spec_convert::<Rhs, Self>(rhs)->Ok_0,
    {
        match convert::<Rhs, Self>(rhs) {
            Ok(rhs) => match self.integer().checked_sub(rhs.integer()) {
                Some(difference) => Self::new(difference),
                None => {
                    proof {
                        assert(false);
                    }
                    self
                },
            },
            Err(_) => {
                proof {
                    assert(false);
                }
                self
            },
        }
    }

    /// Remainder: `self` modulo `rhs` converted into the type of `self`; `0` when `rhs`
    /// converts to `0`, and `self` unchanged when `rhs` cannot be converted
    fn rem<Rhs: FixedPoint>(self, rhs: Rhs) -> (r: Self)
        ensures
            match spec_convert::<Rhs, Self>(rhs) {
                Ok(v) => r.spec_integer().spec_value() == if v > 0 {
                    self.spec_integer().spec_value() % v
                } else {
                    0
                },
                Err(_) => r == self,
            },
    {
        match convert::<Rhs, Self>(rhs) {
            Ok(rhs) => {
                if rhs.integer().to_u64() > 0 {
                    Self::new(self.integer().rem(*rhs.integer()))
                } else {
                    Self::new(<Self::T as TimeInt>::min_value())
                }
            },
            Err(_) => self,
        }
    }

    /// Checked equality of the values of two fixed-point values of any units and integer
    /// types
    fn eq<Rhs: FixedPoint>(&self, rhs: &Rhs) -> (r: bool)
        ensures
            r == spec_fixed_eq(*self, *rhs),
    {
        if Self::scaling_factor().lt_value(&Rhs::scaling_factor()) {
            match convert::<Rhs, Self>(*rhs) {
                Ok(rhs) => self.integer().to_u64() == rhs.integer().to_u64(),
                Err(_) => false,
            }
        } else {
            match convert::<Self, Rhs>(*self) {
                Ok(lhs) => lhs.integer().to_u64() == rhs.integer().to_u64(),
                Err(_) => false,
            }
        }
    }

    /// The integer formatted in decimal (`Seconds(123_u32)` gives `"123"`)
    fn to_string(&self) -> (r: String)
        ensures
            r@ == decimal(self.spec_integer().spec_value()),
    {
        decimal_string(self.integer().to_u64())
    }

    /// Ordering of the values of two fixed-point values of any units and integer types
    fn partial_cmp<Rhs: FixedPoint>(&self, rhs: &Rhs) -> (r: Option<Ordering>)
        ensures
            r == Some(fixed_order(*self, *rhs)),
    {
        if Self::scaling_factor().lt_value(&Rhs::scaling_factor()) {
            match convert::<Rhs, Self>(*rhs) {
                Ok(rhs) => Some(order(self.integer().to_u64(), rhs.integer().to_u64())),
                Err(_) => Some(Ordering::Less),
            }
        } else {
            match convert::<Self, Rhs>(*self) {
                Ok(lhs) => Some(order(lhs.integer().to_u64(), rhs.integer().to_u64())),
                Err(_) => Some(Ordering::Greater),
            }
        }
    }
}

impl<F: FixedPoint> FixedPointOps for F {

}

/// Converts the fixed-point value `s` into the fixed-point type `D`.
fn convert<S: FixedPoint, D: FixedPoint>(s: S) -> (r: Result<D, ConversionError>)
    ensures
        match spec_convert::<S, D>(s) {
            Ok(v) => r matches Ok(x) && x.spec_integer().spec_value() == v,
            Err(e) => r == Err::<D, ConversionError>(e),
        },
{
    proof {
        S::lemma_scaling_factor();
    }
    from_ticks::<S::T, D>(*s.integer(), S::scaling_factor())
}

/// The ordering of two integers.
fn order(x: u64, y: u64) -> (r: Ordering)
    ensures
        r == (if x < y {
            Ordering::Less
        } else if x == y {
            Ordering::Equal
        } else {
            Ordering::Greater
        }),
{
    if x < y {
        Ordering::Less
    } else if x == y {
        Ordering::Equal
    } else {
        Ordering::Greater
    }
}

/// Widens an integer into a type of at least its width.
pub(crate) fn widen<S: TimeInt, W: TimeInt>(x: S) -> (r: W)
    requires
        W::spec_max() >= S::spec_max(),
    ensures
        r.spec_value() == x.spec_value(),
{
    proof {
        S::lemma_range(x, x);
    }
    match W::try_from_u64(x.to_u64()) {
        Some(w) => w,
        None => {
            proof {
                assert(false);
            }
            W::min_value()
        },
    }
}

/// Converts `t` ticks of `sf`, held in an integer type whose largest value is `smax`, into
/// ticks of `dsf` held in `D`, as [`spec_from_ticks`] describes: the exact value is formed in
/// 128 bits, then checked against the two integer types.
fn convert_ticks<D: TimeInt>(t: u64, smax: u64, sf: Fraction, dsf: Fraction) -> (r: Result<
    D,
    ConversionError,
>)
    requires
        t <= smax,
        sf.spec_denom() > 0,
    ensures
        result_holds(r, spec_from_ticks(t as nat, smax as nat, sf, D::spec_max(), dsf)),
{
    if *dsf.numerator() == 0 {
        return Err(ConversionError::Unspecified);
    }
    let v = rescale_u128(t, *sf.numerator(), *sf.denominator(), *dsf.numerator(), *dsf.denominator());
    let dmax = D::max_value().to_u64();
    if v <= dmax as u128 {
        match D::try_from_u64(v as u64) {
            Some(x) => Ok(x),
            None => {
                proof {
                    assert(false);
                }
                Err(ConversionError::ConversionFailure)
            },
        }
    } else if v <= smax as u128 {
        Err(ConversionError::ConversionFailure)
    } else {
        Err(ConversionError::Overflow)
    }
}

/// Constructs a `FixedPoint` from an integer and scaling-factor fraction
///
/// # Errors
///
/// Failure will only occur if the provided value does not fit in the selected destination type.
///
/// [`ConversionError::Overflow`] : The converted value fits neither the source nor the
/// destination integer type.
/// [`ConversionError::ConversionFailure`] : The converted value fits the source integer type but
/// not the destination's.
pub fn from_ticks<SourceInt: TimeInt, Dest: FixedPoint>(ticks: SourceInt, scaling_factor: Fraction) -> (r:
    Result<Dest, ConversionError>)
    requires
        scaling_factor.spec_denom() > 0,
    ensures
        match spec_from_ticks(
            ticks.spec_value(),
            SourceInt::spec_max(),
            scaling_factor,
            Dest::T::spec_max(),
            Dest::spec_scaling_factor(),
        ) {
            Ok(v) => r matches Ok(x) && x.spec_integer().spec_value() == v,
            Err(e) => r == Err::<Dest, ConversionError>(e),
        },
{
    proof {
        SourceInt::lemma_range(ticks, ticks);
    }
    match convert_ticks::<Dest::T>(
        ticks.to_u64(),
        SourceInt::max_value().to_u64(),
        scaling_factor,
        Dest::scaling_factor(),
    ) {
        Ok(t) => Ok(Dest::new(t)),
        Err(e) => Err(e),
    }
}

/// Whether [`from_ticks_safe`] can convert `t` ticks of `sf` into a value of scaling factor
/// `dsf` held in an integer type bounded by `dmax` without any step overflowing.
pub open spec fn spec_from_ticks_safe_ok(t: nat, sf: Fraction, dsf: Fraction, dmax: nat) -> bool {
    if (sf.spec_numer() >= sf.spec_denom() && dsf.spec_numer() <= dsf.spec_denom()) || (
    sf.spec_numer() <= sf.spec_denom() && dsf.spec_numer() >= dsf.spec_denom()) {
        &&& scale(t, sf.spec_numer(), sf.spec_denom()) <= dmax
        &&& scale(scale(t, sf.spec_numer(), sf.spec_denom()), dsf.spec_denom(), dsf.spec_numer())
            <= dmax
    } else {
        &&& sf.spec_checked_div(dsf) is Some
        &&& scale(
            t,
            sf.spec_checked_div(dsf).unwrap().spec_numer(),
            sf.spec_checked_div(dsf).unwrap().spec_denom(),
        ) <= dmax
    }
}

/// The integer [`from_ticks_safe`] gives for `t` ticks of `sf` converted to scaling factor
/// `dsf`: scaled to `1/1` then to `dsf` when `1/1` lies between the two scaling factors,
/// otherwise scaled by the ratio of the scaling factors.
pub open spec fn spec_from_ticks_safe(t: nat, sf: Fraction, dsf: Fraction) -> nat {
    if (sf.spec_numer() >= sf.spec_denom() && dsf.spec_numer() <= dsf.spec_denom()) || (
    sf.spec_numer() <= sf.spec_denom() && dsf.spec_numer() >= dsf.spec_denom()) {
        scale(scale(t, sf.spec_numer(), sf.spec_denom()), dsf.spec_denom(), dsf.spec_numer())
    } else {
        scale(
            t,
            sf.spec_checked_div(dsf).unwrap().spec_numer(),
            sf.spec_checked_div(dsf).unwrap().spec_denom(),
        )
    }
}

/// Constructs a `FixedPoint` from an integer and scaling-factor fraction with panicky
/// arithmetic, for a destination integer type at least as wide as the source.
pub fn from_ticks_safe<SourceInt: TimeInt, Dest: FixedPoint>(ticks: SourceInt, scaling_factor: Fraction) -> (r:
    Dest)
    requires
        Dest::T::spec_max() >= SourceInt::spec_max(),
        scaling_factor.spec_denom() > 0,
        spec_from_ticks_safe_ok(
            ticks.spec_value(),
            scaling_factor,
            Dest::spec_scaling_factor(),
            Dest::T::spec_max(),
        ),
    ensures
        r.spec_integer().spec_value() == spec_from_ticks_safe(
            ticks.spec_value(),
            scaling_factor,
            Dest::spec_scaling_factor(),
        ),
{
    proof {
        Dest::lemma_scaling_factor();
    }
    let dest_sf = Dest::scaling_factor();
    let ticks = widen::<SourceInt, Dest::T>(ticks);
    let ticks = if (scaling_factor.ge_one() && dest_sf.le_one()) || (scaling_factor.le_one()
        && dest_sf.ge_one()) {
        // if the source's _scaling factor_ is > `1/1`, start by converting to a _scaling factor_
        // of `1/1`, then convert to destination _scaling factor_.
        ticks.mul_fraction(scaling_factor).div_fraction(dest_sf)
    } else {
        // If the source scaling factor is <= 1, the relative ratio of the scaling factors are
        // calculated first by dividing the source scaling factor by that of the
        // dest. The source integer part is then multiplied by the result.
        proof {
            lemma_checked_div_value(scaling_factor, dest_sf);
        }
        ticks.mul_fraction(scaling_factor / dest_sf)
    };
    Dest::new(ticks)
}

} // verus!
