//! A fractional period of time in seconds, held in the integer type of a clock's ticks
use crate::arith::{lemma_reduced, ratio_div, ratio_div_u64, ratio_mul, ratio_mul_u64, reduce_u64, reduced};
use crate::time_int::TimeInt;
use crate::ConversionError;
use core::cmp::Ordering;
use vstd::arithmetic::mul::lemma_mul_upper_bound;
use vstd::prelude::*;
use vstd::std_specs::cmp::PartialEqSpecImpl;
use vstd::std_specs::cmp::PartialOrdSpecImpl;
use vstd::std_specs::ops::DivSpecImpl;
use vstd::std_specs::ops::MulSpecImpl;

verus! {

/// A fractional period of time in seconds, `numerator / denominator`
///
/// Two periods compare (`==`, `<`, ...) by their value: `2/4 == 1/2`.
#[derive(Debug)]
pub struct Period<T: TimeInt = u32> {
    numer: T,
    denom: T,
}

/// A value of `T` holding `v`, which fits.
fn narrow<T: TimeInt>(v: u64) -> (r: T)
    requires
        v <= T::spec_max(),
    ensures
        r.spec_value() == v,
{
    match T::try_from_u64(v) {
        Some(x) => x,
        None => {
            proof {
                assert(false);
            }
            T::min_value()
        },
    }
}

impl<T: TimeInt> Period<T> {
    /// The numerator
    pub closed spec fn spec_numer(self) -> nat {
        self.numer.spec_value()
    }

    /// The denominator
    pub closed spec fn spec_denom(self) -> nat {
        self.denom.spec_value()
    }

    /// The period `numer / denom` (meaningful when both fit in `T`).
    pub closed spec fn spec_new(numer: nat, denom: nat) -> Self {
        Period { numer: T::spec_from_nat(numer), denom: T::spec_from_nat(denom) }
    }

    /// A period is determined by its numerator and denominator.
    pub proof fn lemma_determined(self, numer: nat, denom: nat)
        requires
            self.spec_numer() == numer,
            self.spec_denom() == denom,
        ensures
            self == Self::spec_new(numer, denom),
    {
        T::lemma_range(self.numer, self.denom);
        T::lemma_range(self.denom, self.numer);
        T::lemma_from_nat(numer);
        T::lemma_from_nat(denom);
        T::lemma_range(self.numer, T::spec_from_nat(numer));
        T::lemma_range(self.denom, T::spec_from_nat(denom));
    }

    /// The reciprocal `denom / numer`.
    pub open spec fn spec_recip(self) -> Self {
        Self::spec_new(self.spec_denom(), self.spec_numer())
    }

    /// The numerator and the denominator fit in `T`.
    pub proof fn lemma_parts(self)
        ensures
            self.spec_numer() <= T::spec_max(),
            self.spec_denom() <= T::spec_max(),
    {
        T::lemma_range(self.numer, self.denom);
        T::lemma_range(self.denom, self.numer);
    }

    /// `self` and `other` have the same value (equal cross products).
    pub open spec fn same_value(self, other: Self) -> bool {
        self.spec_numer() * other.spec_denom() == other.spec_numer() * self.spec_denom()
    }

    /// The numerator and the denominator of `self × other`, as [`Period::checked_mul`]
    /// computes them (`None` on overflow).
    pub open spec fn spec_checked_mul(self, other: Self) -> Option<(nat, nat)> {
        ratio_mul(
            self.spec_numer(),
            self.spec_denom(),
            other.spec_numer(),
            other.spec_denom(),
            T::spec_max(),
        )
    }

    /// The numerator and the denominator of `self / other`, as [`Period::checked_div`]
    /// computes them (`None` on overflow or division by zero).
    pub open spec fn spec_checked_div(self, other: Self) -> Option<(nat, nat)> {
        ratio_div(
            self.spec_numer(),
            self.spec_denom(),
            other.spec_numer(),
            other.spec_denom(),
            T::spec_max(),
        )
    }

    /// Construct a new fractional `Period`.
    ///
    /// A reduction is **not** performed. If reduction is needed, use [`Period::new_reduce()`]
    pub fn new(numerator: T, denominator: T) -> (r: Self)
        ensures
            r.spec_numer() == numerator.spec_value(),
            r.spec_denom() == denominator.spec_value(),
    {
        Self { numer: numerator, denom: denominator }
    }

    /// Return the numerator of the fraction
    pub fn numerator(&self) -> (r: &T)
        ensures
            r.spec_value() == self.spec_numer(),
    {
        &self.numer
    }

    /// Return the denominator of the fraction
    pub fn denominator(&self) -> (r: &T)
        ensures
            r.spec_value() == self.spec_denom(),
    {
        &self.denom
    }

    /// Construct a new fractional `Period`.
    ///
    /// A reduction **is** performed.
    ///
    /// # Errors
    ///
    /// [`ConversionError::DivByZero`] : A `0` denominator was detected
    pub fn new_reduce(numerator: T, denominator: T) -> (r: Result<Self, ConversionError>)
        ensures
            denominator.spec_value() == 0 <==> r == Err::<Self, ConversionError>(
                ConversionError::DivByZero,
            ),
            denominator.spec_value() != 0 ==> (r matches Ok(p) && (p.spec_numer(), p.spec_denom())
                == reduced(numerator.spec_value(), denominator.spec_value())),
    {
        if denominator.to_u64() != 0 {
            let (n, d) = reduce_u64(numerator.to_u64(), denominator.to_u64());
            proof {
                lemma_reduced(numerator.spec_value(), denominator.spec_value());
                T::lemma_range(numerator, denominator);
                T::lemma_range(denominator, numerator);
            }
            Ok(Self { numer: narrow(n), denom: narrow(d) })
        } else {
            Err(ConversionError::DivByZero)
        }
    }

    /// Returns the value truncated to an integer
    pub fn to_integer(&self) -> (r: T)
        requires
            self.spec_denom() > 0,
        ensures
            r.spec_value() == self.spec_numer() / self.spec_denom(),
    {
        match self.numer.checked_div(&self.denom) {
            Some(q) => q,
            None => {
                proof {
                    assert(false);
                }
                self.numer
            },
        }
    }

    /// Constructs a `Period` from an integer.
    ///
    /// Equivalent to `Period::new(value,1)`.
    pub fn from_integer(value: T) -> (r: Self)
        ensures
            r.spec_numer() == value.spec_value(),
            r.spec_denom() == 1,
    {
        Self { numer: value, denom: T::from_u32(1) }
    }

    /// Returns the reciprocal of the fraction
    ///
    /// The reciprocal of zero is undefined: the numerator must not be `0`.
    pub fn recip(self) -> (r: Self)
        requires
            self.spec_numer() > 0,
        ensures
            r.spec_numer() == self.spec_denom(),
            r.spec_denom() == self.spec_numer(),
            r == self.spec_recip(),
    {
        let r = Self { numer: self.denom, denom: self.numer };
        proof {
            r.lemma_determined(self.spec_denom(), self.spec_numer());
        }
        r
    }

    /// Checked `Period` × `Period` = `Period`
    ///
    /// The result is reduced to lowest terms.
    ///
    /// # Errors
    ///
    /// [`ConversionError::Overflow`]
    pub fn checked_mul(&self, v: &Self) -> (r: Result<Self, ConversionError>)
        requires
            self.spec_denom() > 0,
            v.spec_denom() > 0,
        ensures
            r is Ok <==> self.spec_checked_mul(*v) is Some,
            r matches Ok(p) ==> Some((p.spec_numer(), p.spec_denom())) == self.spec_checked_mul(
                *v,
            ),
            r matches Err(e) ==> e == ConversionError::Overflow,
    {
        match ratio_mul_u64(
            self.numer.to_u64(),
            self.denom.to_u64(),
            v.numer.to_u64(),
            v.denom.to_u64(),
            T::max_value().to_u64(),
        ) {
            Some((n, d)) => {
                proof {
                    crate::arith::lemma_ratio_mul_value(
                        self.spec_numer(),
                        self.spec_denom(),
                        v.spec_numer(),
                        v.spec_denom(),
                        T::spec_max(),
                    );
                }
                Ok(Self { numer: narrow(n), denom: narrow(d) })
            },
            None => Err(ConversionError::Overflow),
        }
    }

    /// Checked `Period` / `Period` = `Period`
    ///
    /// The result is reduced to lowest terms; dividing by zero fails as an overflow does.
    ///
    /// # Errors
    ///
    /// [`ConversionError::Overflow`]
    pub fn checked_div(&self, v: &Self) -> (r: Result<Self, ConversionError>)
        requires
            self.spec_denom() > 0 || v.spec_denom() > 0,
        ensures
            r is Ok <==> self.spec_checked_div(*v) is Some,
            r matches Ok(p) ==> Some((p.spec_numer(), p.spec_denom())) == self.spec_checked_div(
                *v,
            ),
            r matches Err(e) ==> e == ConversionError::Overflow,
    {
        match ratio_div_u64(
            self.numer.to_u64(),
            self.denom.to_u64(),
            v.numer.to_u64(),
            v.denom.to_u64(),
            T::max_value().to_u64(),
        ) {
            Some((n, d)) => {
                proof {
                    crate::arith::lemma_ratio_div_bounds(
                        self.spec_numer(),
                        self.spec_denom(),
                        v.spec_numer(),
                        v.spec_denom(),
                        T::spec_max(),
                    );
                }
                Ok(Self { numer: narrow(n), denom: narrow(d) })
            },
            None => Err(ConversionError::Overflow),
        }
    }

    /// Checked `Period` × integer = `Period`
    ///
    /// # Errors
    ///
    /// [`ConversionError::Overflow`]
    pub fn checked_mul_integer(&self, multiplier: T) -> (r: Result<Self, ConversionError>)
        requires
            self.spec_denom() > 0,
        ensures
            r is Ok <==> ratio_mul(
                self.spec_numer(),
                self.spec_denom(),
                multiplier.spec_value(),
                1,
                T::spec_max(),
            ) is Some,
            r matches Ok(p) ==> Some((p.spec_numer(), p.spec_denom())) == ratio_mul(
                self.spec_numer(),
                self.spec_denom(),
                multiplier.spec_value(),
                1,
                T::spec_max(),
            ),
            r matches Err(e) ==> e == ConversionError::Overflow,
    {
        self.checked_mul(&Self::from_integer(multiplier))
    }

    /// Checked `Period` / integer = `Period`
    ///
    /// Dividing by `0` fails as an overflow does.
    ///
    /// # Errors
    ///
    /// [`ConversionError::Overflow`]
    pub fn checked_div_integer(&self, divisor: T) -> (r: Result<Self, ConversionError>)
        requires
            self.spec_denom() > 0,
        ensures
            r is Ok <==> ratio_div(
                self.spec_numer(),
                self.spec_denom(),
                divisor.spec_value(),
                1,
                T::spec_max(),
            ) is Some,
            r matches Ok(p) ==> Some((p.spec_numer(), p.spec_denom())) == ratio_div(
                self.spec_numer(),
                self.spec_denom(),
                divisor.spec_value(),
                1,
                T::spec_max(),
            ),
            r matches Err(e) ==> e == ConversionError::Overflow,
    {
        self.checked_div(&Self::from_integer(divisor))
    }

    /// The two cross products `self.numer × other.denom` and `other.numer × self.denom`.
    fn cross_products(&self, other: &Self) -> (r: (u128, u128))
        ensures
            r.0 == self.spec_numer() * other.spec_denom(),
            r.1 == other.spec_numer() * self.spec_denom(),
    {
        let a = self.numer.to_u64();
        let b = self.denom.to_u64();
        let c = other.numer.to_u64();
        let d = other.denom.to_u64();
        proof {
            lemma_mul_upper_bound(a as int, u64::MAX as int, d as int, u64::MAX as int);
            lemma_mul_upper_bound(c as int, u64::MAX as int, b as int, u64::MAX as int);
        }
        (a as u128 * d as u128, c as u128 * b as u128)
    }
}

/// The periods returned by [`Period::checked_mul`] are equal in value to the exact product:
/// `p == x × y`.
pub proof fn lemma_period_mul_value<T: TimeInt>(x: Period<T>, y: Period<T>)
    requires
        x.spec_denom() > 0,
        y.spec_denom() > 0,
        x.spec_checked_mul(y) is Some,
    ensures
        ({
            let (n, d) = x.spec_checked_mul(y).unwrap();
            &&& d > 0
            &&& n * (x.spec_denom() * y.spec_denom()) == d * (x.spec_numer() * y.spec_numer())
        }),
{
    crate::arith::lemma_ratio_mul_value(
        x.spec_numer(),
        x.spec_denom(),
        y.spec_numer(),
        y.spec_denom(),
        T::spec_max(),
    );
}

/// The periods returned by [`Period::checked_div`] are equal in value to the exact quotient:
/// `p == x / y`.
pub proof fn lemma_period_div_value<T: TimeInt>(x: Period<T>, y: Period<T>)
    requires
        x.spec_denom() > 0,
        y.spec_denom() > 0,
        x.spec_checked_div(y) is Some,
    ensures
        y.spec_numer() > 0,
        ({
            let (n, d) = x.spec_checked_div(y).unwrap();
            &&& d > 0
            &&& n * (x.spec_denom() * y.spec_numer()) == d * (x.spec_numer() * y.spec_denom())
        }),
{
    crate::arith::lemma_ratio_div_value(
        x.spec_numer(),
        x.spec_denom(),
        y.spec_numer(),
        y.spec_denom(),
        T::spec_max(),
    );
}

/// Taking the reciprocal twice gives back the period.
pub proof fn lemma_period_recip_involution<T: TimeInt>(p: Period<T>)
    ensures
        p.spec_recip().spec_recip() == p,
{
    p.lemma_parts();
    p.lemma_determined(p.spec_numer(), p.spec_denom());
    T::lemma_from_nat(p.spec_numer());
    T::lemma_from_nat(p.spec_denom());
}

impl<T: TimeInt> core::ops::Mul for Period<T> {
    type Output = Self;

    /// Panicky `Period` × `Period` = `Period` (reduced to lowest terms)
    fn mul(self, rhs: Self) -> (r: Self) {
        match self.checked_mul(&rhs) {
            Ok(p) => {
                proof {
                    let (n, d) = self.spec_checked_mul(rhs).unwrap();
                    p.lemma_determined(n, d);
                }
                p
            },
            Err(_) => {
                proof {
                    assert(false);
                }
                self
            },
        }
    }
}

impl<T: TimeInt> MulSpecImpl for Period<T> {
    open spec fn obeys_mul_spec() -> bool {
        true
    }

    open spec fn mul_req(self, rhs: Self) -> bool {
        &&& self.spec_denom() > 0
        &&& rhs.spec_denom() > 0
        &&& self.spec_checked_mul(rhs) is Some
    }

    open spec fn mul_spec(self, rhs: Self) -> Self {
        Self::spec_new(self.spec_checked_mul(rhs).unwrap().0, self.spec_checked_mul(rhs).unwrap().1)
    }
}

impl<T: TimeInt> core::ops::Div for Period<T> {
    type Output = Self;

    /// Panicky `Period` / `Period` = `Period` (reduced to lowest terms)
    fn div(self, rhs: Self) -> (r: Self) {
        match self.checked_div(&rhs) {
            Ok(p) => {
                proof {
                    let (n, d) = self.spec_checked_div(rhs).unwrap();
                    p.lemma_determined(n, d);
                }
                p
            },
            Err(_) => {
                proof {
                    assert(false);
                }
                self
            },
        }
    }
}

impl<T: TimeInt> DivSpecImpl for Period<T> {
    open spec fn obeys_div_spec() -> bool {
        true
    }

    open spec fn div_req(self, rhs: Self) -> bool {
        &&& self.spec_denom() > 0
        &&& rhs.spec_denom() > 0
        &&& rhs.spec_numer() > 0
        &&& self.spec_checked_div(rhs) is Some
    }

    open spec fn div_spec(self, rhs: Self) -> Self {
        Self::spec_new(self.spec_checked_div(rhs).unwrap().0, self.spec_checked_div(rhs).unwrap().1)
    }
}

impl<T: TimeInt> PartialEq for Period<T> {
    fn eq(&self, other: &Self) -> (r: bool) {
        let (a, b) = self.cross_products(other);
        a == b
    }
}

impl<T: TimeInt> PartialEqSpecImpl for Period<T> {
    open spec fn obeys_eq_spec() -> bool {
        true
    }

    open spec fn eq_spec(&self, other: &Self) -> bool {
        self.same_value(*other)
    }
}

impl<T: TimeInt> PartialOrd for Period<T> {
    fn partial_cmp(&self, other: &Self) -> (r: Option<Ordering>) {
        let (a, b) = self.cross_products(other);
        if a < b {
            Some(Ordering::Less)
        } else if a == b {
            Some(Ordering::Equal)
        } else {
            Some(Ordering::Greater)
        }
    }
}

impl<T: TimeInt> PartialOrdSpecImpl for Period<T> {
    open spec fn obeys_partial_cmp_spec() -> bool {
        true
    }

    open spec fn partial_cmp_spec(&self, other: &Self) -> Option<Ordering> {
        let a = self.spec_numer() * other.spec_denom();
        let b = other.spec_numer() * self.spec_denom();
        if a < b {
            Some(Ordering::Less)
        } else if a == b {
            Some(Ordering::Equal)
        } else {
            Some(Ordering::Greater)
        }
    }
}

} // verus!
