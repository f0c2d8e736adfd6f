//! The integer types that hold the _integer_ part of time-related values
use crate::fraction::{scale, u32_div_fraction, u32_mul_fraction, u64_div_fraction, u64_mul_fraction, Fraction};
use vstd::arithmetic::div_mod::lemma_small_mod;
use vstd::arithmetic::mul::*;
use vstd::prelude::*;

verus! {

/// `x × f` in an integer type whose largest value is `max`, truncated toward `0`: `None` when
/// the intermediate product `x × numerator` does not fit or the denominator is `0`.
pub open spec fn spec_checked_mul_fraction(x: nat, f: Fraction, max: nat) -> Option<nat> {
    if x * f.spec_numer() <= max && f.spec_denom() > 0 {
        Some(scale(x, f.spec_numer(), f.spec_denom()))
    } else {
        None
    }
}

/// `x / f` in an integer type whose largest value is `max`, truncated toward `0`: `x` times
/// the reciprocal of `f`.
pub open spec fn spec_checked_div_fraction(x: nat, f: Fraction, max: nat) -> Option<nat> {
    if x * f.spec_denom() <= max && f.spec_numer() > 0 {
        Some(scale(x, f.spec_denom(), f.spec_numer()))
    } else {
        None
    }
}

/// The character of the decimal digit `d` (`0..=9`).
pub open spec fn digit_char(d: nat) -> char {
    (d + 48) as char
}

/// The decimal representation of `n`: its digits, most significant first, without leading
/// zeros (`"0"` for zero).
pub open spec fn decimal(n: nat) -> Seq<char>
    decreases n,
{
    if n < 10 {
        seq![digit_char(n)]
    } else {
        decimal(n / 10).push(digit_char(n % 10))
    }
}

/// Wraps the formatting of a `u64` through `Display` (`format!("{}", ..)`): its decimal
/// representation.
#[verifier::external_body]
pub(crate) fn decimal_string(value: u64) -> (r: String)
    ensures
        r@ == decimal(value as nat),
{
    format!("{}", value)
}

/// The core inner-type trait for time-related types: an unsigned integer of 32 or 64 bits.
pub trait TimeInt: Copy + Sized + core::fmt::Debug {
    /// The value held
    spec fn spec_value(self) -> nat;

    /// The largest value of the type
    spec fn spec_max() -> nat;

    /// Values lie in `0..=spec_max()`, the type has 32 or 64 bits, and a value is determined by
    /// what it holds.
    proof fn lemma_range(x: Self, y: Self)
        ensures
            x.spec_value() <= Self::spec_max(),
            Self::spec_max() == u32::MAX || Self::spec_max() == u64::MAX,
            x.spec_value() == y.spec_value() ==> x == y,
    ;

    /// The type has 32 or 64 bits.
    proof fn lemma_max()
        ensures
            Self::spec_max() == u32::MAX || Self::spec_max() == u64::MAX,
    ;

    /// The value of this type holding `v` (meaningful when `v` fits).
    spec fn spec_from_nat(v: nat) -> Self;

    /// A value that fits is held exactly.
    proof fn lemma_from_nat(v: nat)
        requires
            v <= Self::spec_max(),
        ensures
            Self::spec_from_nat(v).spec_value() == v,
    ;

    /// Widening from `u32` (`From<u32>`)
    fn from_u32(value: u32) -> (r: Self)
        ensures
            r.spec_value() == value,
    ;

    /// The value as a `u64`
    fn to_u64(self) -> (r: u64)
        ensures
            r == self.spec_value(),
    ;

    /// Narrowing from `u64` (`TryFrom<u64>`): `None` when the value does not fit
    fn try_from_u64(value: u64) -> (r: Option<Self>)
        ensures
            r is Some <==> value <= Self::spec_max(),
            r matches Some(x) ==> x.spec_value() == value,
    ;

    /// The smallest value, `0`
    fn min_value() -> (r: Self)
        ensures
            r.spec_value() == 0,
    ;

    /// The largest value
    fn max_value() -> (r: Self)
        ensures
            r.spec_value() == Self::spec_max(),
    ;

    /// Checked addition
    fn checked_add(&self, v: &Self) -> (r: Option<Self>)
        ensures
            r is Some <==> self.spec_value() + v.spec_value() <= Self::spec_max(),
            r matches Some(x) ==> x.spec_value() == self.spec_value() + v.spec_value(),
    ;

    /// Checked subtraction
    fn checked_sub(&self, v: &Self) -> (r: Option<Self>)
        ensures
            r is Some <==> self.spec_value() >= v.spec_value(),
            r matches Some(x) ==> x.spec_value() == self.spec_value() - v.spec_value(),
    ;

    /// Checked multiplication
    fn checked_mul(&self, v: &Self) -> (r: Option<Self>)
        ensures
            r is Some <==> self.spec_value() * v.spec_value() <= Self::spec_max(),
            r matches Some(x) ==> x.spec_value() == self.spec_value() * v.spec_value(),
    ;

    /// Checked division (truncated): `None` for a zero divisor
    fn checked_div(&self, v: &Self) -> (r: Option<Self>)
        ensures
            r is Some <==> v.spec_value() != 0,
            r matches Some(x) ==> x.spec_value() == self.spec_value() / v.spec_value(),
    ;

    /// Remainder of the division by a nonzero divisor
    fn rem(self, v: Self) -> (r: Self)
        requires
            v.spec_value() != 0,
        ensures
            r.spec_value() == self.spec_value() % v.spec_value(),
    ;

    /// Wrapping (modular) addition
    fn wrapping_add(&self, v: &Self) -> (r: Self)
        ensures
            r.spec_value() == (self.spec_value() + v.spec_value()) % (Self::spec_max() + 1),
    ;

    /// Wrapping (modular) subtraction
    fn wrapping_sub(&self, v: &Self) -> (r: Self)
        ensures
            r.spec_value() == (self.spec_value() - v.spec_value() + Self::spec_max() + 1) % (
            Self::spec_max() + 1) as int,
    ;

    /// Panicky integer × [`Fraction`] = integer (`ops::Mul<Fraction>`), truncated toward `0`
    fn mul_fraction(self, fraction: Fraction) -> (r: Self)
        requires
            fraction.spec_denom() > 0,
            scale(self.spec_value(), fraction.spec_numer(), fraction.spec_denom())
                <= Self::spec_max(),
        ensures
            r.spec_value() == scale(
                self.spec_value(),
                fraction.spec_numer(),
                fraction.spec_denom(),
            ),
    ;

    /// Panicky integer / [`Fraction`] = integer (`ops::Div<Fraction>`), truncated toward `0`
    fn div_fraction(self, fraction: Fraction) -> (r: Self)
        requires
            fraction.spec_numer() > 0,
            scale(self.spec_value(), fraction.spec_denom(), fraction.spec_numer())
                <= Self::spec_max(),
        ensures
            r.spec_value() == scale(
                self.spec_value(),
                fraction.spec_denom(),
                fraction.spec_numer(),
            ),
    ;

    /// Checked integer × [`Fraction`] = integer
    ///
    /// Returns truncated (rounded toward `0`) integer or [`None`] upon failure
    fn checked_mul_fraction(&self, fraction: &Fraction) -> (r: Option<Self>)
        ensures
            r is Some <==> spec_checked_mul_fraction(
                self.spec_value(),
                *fraction,
                Self::spec_max(),
            ) is Some,
            r matches Some(x) ==> Some(x.spec_value()) == spec_checked_mul_fraction(
                self.spec_value(),
                *fraction,
                Self::spec_max(),
            ),
    {
        match self.checked_mul(&Self::from_u32(*fraction.numerator())) {
            Some(product) => product.checked_div(&Self::from_u32(*fraction.denominator())),
            None => None,
        }
    }

    /// Checked integer / [`Fraction`] = integer
    ///
    /// Returns truncated (rounded toward `0`) integer or [`None`] upon failure. The fraction
    /// must not be zero.
    fn checked_div_fraction(&self, fraction: &Fraction) -> (r: Option<Self>)
        requires
            fraction.spec_numer() > 0,
        ensures
            r is Some <==> spec_checked_div_fraction(
                self.spec_value(),
                *fraction,
                Self::spec_max(),
            ) is Some,
            r matches Some(x) ==> Some(x.spec_value()) == spec_checked_div_fraction(
                self.spec_value(),
                *fraction,
                Self::spec_max(),
            ),
    {
        self.checked_mul_fraction(&fraction.recip())
    }

    /// Moves an integer into a comparable base for checking: `self × rhs_fraction.denominator ×
    /// fraction.numerator`, or [`None`] upon overflow
    fn checked_same_base(&self, fraction: &Fraction, rhs_fraction: &Fraction) -> (r: Option<
        Self,
    >)
        ensures
            r is Some <==> (self.spec_value() * rhs_fraction.spec_denom() <= Self::spec_max()
                && self.spec_value() * rhs_fraction.spec_denom() * fraction.spec_numer()
                <= Self::spec_max()),
            r matches Some(x) ==> x.spec_value() == self.spec_value() * rhs_fraction.spec_denom()
                * fraction.spec_numer(),
    {
        let a_n = *fraction.numerator();
        let b_d = *rhs_fraction.denominator();
        match self.checked_mul(&Self::from_u32(b_d)) {
            Some(x) => x.checked_mul(&Self::from_u32(a_n)),
            None => None,
        }
    }
}

impl TimeInt for u32 {
    open spec fn spec_value(self) -> nat {
        self as nat
    }

    open spec fn spec_max() -> nat {
        u32::MAX as nat
    }

    open spec fn spec_from_nat(v: nat) -> Self {
        v as u32
    }

    proof fn lemma_from_nat(v: nat) {
    }

    proof fn lemma_range(x: Self, y: Self) {
    }

    proof fn lemma_max() {
    }

    fn from_u32(value: u32) -> (r: Self) {
        value
    }

    fn to_u64(self) -> (r: u64) {
        self as u64
    }

    fn try_from_u64(value: u64) -> (r: Option<Self>) {
        if value <= u32::MAX as u64 {
            Some(value as u32)
        } else {
            None
        }
    }

    fn min_value() -> (r: Self) {
        0
    }

    fn max_value() -> (r: Self) {
        u32::MAX
    }

    fn checked_add(&self, v: &Self) -> (r: Option<Self>) {
        (*self).checked_add(*v)
    }

    fn checked_sub(&self, v: &Self) -> (r: Option<Self>) {
        (*self).checked_sub(*v)
    }

    fn checked_mul(&self, v: &Self) -> (r: Option<Self>) {
        (*self).checked_mul(*v)
    }

    fn checked_div(&self, v: &Self) -> (r: Option<Self>) {
        (*self).checked_div(*v)
    }

    fn rem(self, v: Self) -> (r: Self) {
        self % v
    }

    fn wrapping_add(&self, v: &Self) -> (r: Self) {
        let r = (*self).wrapping_add(*v);
        proof {
            let sum: nat = (*self as nat) + (*v as nat);
            let m: nat = (u32::MAX as nat) + 1;
            if sum > u32::MAX {
                assert(sum % m == sum - m) by (nonlinear_arith)
                    requires
                        sum >= m,
                        sum < 2 * m,
                ;
            } else {
                lemma_small_mod(sum, m);
            }
        }
        r
    }

    fn wrapping_sub(&self, v: &Self) -> (r: Self) {
        let r = (*self).wrapping_sub(*v);
        proof {
            let m = u32::MAX as int + 1;
            let d = (*self as int) - (*v as int) + m;
            if *self >= *v {
                assert(d % m == (*self as int) - (*v as int)) by (nonlinear_arith)
                    requires
                        d == (*self as int) - (*v as int) + m,
                        0 <= (*self as int) - (*v as int) < m,
                ;
            } else {
                lemma_small_mod(d as nat, m as nat);
            }
        }
        r
    }

    fn mul_fraction(self, fraction: Fraction) -> (r: Self) {
        u32_mul_fraction(self, fraction)
    }

    fn div_fraction(self, fraction: Fraction) -> (r: Self) {
        u32_div_fraction(self, fraction)
    }
}

impl TimeInt for u64 {
    open spec fn spec_value(self) -> nat {
        self as nat
    }

    open spec fn spec_max() -> nat {
        u64::MAX as nat
    }

    open spec fn spec_from_nat(v: nat) -> Self {
        v as u64
    }

    proof fn lemma_from_nat(v: nat) {
    }

    proof fn lemma_range(x: Self, y: Self) {
    }

    proof fn lemma_max() {
    }

    fn from_u32(value: u32) -> (r: Self) {
        value as u64
    }

    fn to_u64(self) -> (r: u64) {
        self
    }

    fn try_from_u64(value: u64) -> (r: Option<Self>) {
        Some(value)
    }

    fn min_value() -> (r: Self) {
        0
    }

    fn max_value() -> (r: Self) {
        u64::MAX
    }

    fn checked_add(&self, v: &Self) -> (r: Option<Self>) {
        (*self).checked_add(*v)
    }

    fn checked_sub(&self, v: &Self) -> (r: Option<Self>) {
        (*self).checked_sub(*v)
    }

    fn checked_mul(&self, v: &Self) -> (r: Option<Self>) {
        (*self).checked_mul(*v)
    }

    fn checked_div(&self, v: &Self) -> (r: Option<Self>) {
        (*self).checked_div(*v)
    }

    fn rem(self, v: Self) -> (r: Self) {
        self % v
    }

    fn wrapping_add(&self, v: &Self) -> (r: Self) {
        let r = (*self).wrapping_add(*v);
        proof {
            let sum: nat = (*self as nat) + (*v as nat);
            let m: nat = (u64::MAX as nat) + 1;
            if sum > u64::MAX {
                assert(sum % m == sum - m) by (nonlinear_arith)
                    requires
                        sum >= m,
                        sum < 2 * m,
                ;
            } else {
                lemma_small_mod(sum, m);
            }
        }
        r
    }

    fn wrapping_sub(&self, v: &Self) -> (r: Self) {
        let r = (*self).wrapping_sub(*v);
        proof {
            let m = u64::MAX as int + 1;
            let d = (*self as int) - (*v as int) + m;
            if *self >= *v {
                assert(d % m == (*self as int) - (*v as int)) by (nonlinear_arith)
                    requires
                        d == (*self as int) - (*v as int) + m,
                        0 <= (*self as int) - (*v as int) < m,
                ;
            } else {
                lemma_small_mod(d as nat, m as nat);
            }
        }
        r
    }

    fn mul_fraction(self, fraction: Fraction) -> (r: Self) {
        u64_mul_fraction(self, fraction)
    }

    fn div_fraction(self, fraction: Fraction) -> (r: Self) {
        u64_div_fraction(self, fraction)
    }
}

} // verus!
