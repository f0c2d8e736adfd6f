//! Fractional/Rational values
use crate::arith::{gcd, lemma_exact_div, gcd_u128, gcd_u64, lemma_common_factor_quotient, lemma_gcd_divides, lemma_ratio_div_value, lemma_ratio_mul_value, lemma_reduced, ratio_div, ratio_div_u64, ratio_mul, ratio_mul_u64, reduce_u64, reduced};
use crate::ConversionError;
use core::cmp::Ordering;
use vstd::arithmetic::div_mod::*;
use vstd::arithmetic::mul::*;
use vstd::prelude::*;
use vstd::std_specs::cmp::PartialEqSpecImpl;
use vstd::std_specs::cmp::PartialOrdSpecImpl;
use vstd::std_specs::ops::DivSpecImpl;
use vstd::std_specs::ops::MulSpecImpl;

verus! {

/// A fractional value
///
/// Used primarily to define the _scaling factor_ of durations, rates, instants and clocks.
/// Two fractions compare (`==`, `<`, ...) by their value, not by their numerator and
/// denominator: `2/4 == 1/2`.
#[derive(Clone, Copy, Debug)]
pub struct Fraction {
    numer: u32,
    denom: u32,
}

/// `x * n / d`, truncated toward zero: an integer scaled by the fraction `n/d`.
pub open spec fn scale(x: nat, n: nat, d: nat) -> nat {
    x * n / d
}

impl Fraction {
    /// The numerator
    pub closed spec fn spec_numer(self) -> nat {
        self.numer as nat
    }

    /// The denominator
    pub closed spec fn spec_denom(self) -> nat {
        self.denom as nat
    }

    /// The fraction with the given numerator and denominator (no reduction).
    pub closed spec fn spec_new(numer: nat, denom: nat) -> Fraction {
        Fraction { numer: numer as u32, denom: denom as u32 }
    }

    /// A fraction is determined by its numerator and denominator, both of which fit in `u32`.
    pub broadcast proof fn lemma_parts(f: Fraction)
        ensures
            #[trigger] f.spec_numer() <= u32::MAX,
            f.spec_denom() <= u32::MAX,
            Fraction::spec_new(f.spec_numer(), f.spec_denom()) == f,
    {
    }

    /// [`Fraction::spec_new`] keeps its arguments when they fit in `u32`.
    pub broadcast proof fn lemma_spec_new(numer: nat, denom: nat)
        requires
            numer <= u32::MAX,
            denom <= u32::MAX,
        ensures
            #[trigger] Fraction::spec_new(numer, denom).spec_numer() == numer,
            Fraction::spec_new(numer, denom).spec_denom() == denom,
    {
    }

    /// The value of the fraction is greater than one.
    pub open spec fn spec_gt_one(self) -> bool {
        self.spec_numer() > self.spec_denom()
    }

    /// The value of `self` is less than that of `other` (cross products).
    pub open spec fn spec_lt_value(self, other: Fraction) -> bool {
        self.spec_numer() * other.spec_denom() < other.spec_numer() * self.spec_denom()
    }

    /// Both fractions have the same value (cross products are equal).
    pub open spec fn same_value(self, other: Fraction) -> bool {
        self.spec_numer() * other.spec_denom() == other.spec_numer() * self.spec_denom()
    }

    /// The product `self × other`, as [`Fraction::checked_mul`] computes it.
    pub open spec fn spec_checked_mul(self, other: Fraction) -> Option<Fraction> {
        match ratio_mul(
            self.spec_numer(),
            self.spec_denom(),
            other.spec_numer(),
            other.spec_denom(),
            u32::MAX as nat,
        ) {
            Some((n, d)) => Some(Fraction::spec_new(n, d)),
            None => None,
        }
    }

    /// The quotient `self / other`, as [`Fraction::checked_div`] computes it.
    pub open spec fn spec_checked_div(self, other: Fraction) -> Option<Fraction> {
        match ratio_div(
            self.spec_numer(),
            self.spec_denom(),
            other.spec_numer(),
            other.spec_denom(),
            u32::MAX as nat,
        ) {
            Some((n, d)) => Some(Fraction::spec_new(n, d)),
            None => None,
        }
    }

    /// The reciprocal `d/n`.
    pub open spec fn spec_recip(self) -> Fraction {
        Fraction::spec_new(self.spec_denom(), self.spec_numer())
    }

    /// Construct a new `Fraction`.
    ///
    /// A reduction is **not** performed. Also there is no check for a denominator of `0`. If these
    /// features are needed, use [`Fraction::new_reduce()`]
    pub fn new(numerator: u32, denominator: u32) -> (r: Self)
        ensures
            r == Fraction::spec_new(numerator as nat, denominator as nat),
            r.spec_numer() == numerator,
            r.spec_denom() == denominator,
    {
        Fraction { numer: numerator, denom: denominator }
    }

    /// Return the numerator of the fraction
    pub fn numerator(&self) -> (r: &u32)
        ensures
            *r == self.spec_numer(),
    {
        &self.numer
    }

    /// Return the denominator of the fraction
    pub fn denominator(&self) -> (r: &u32)
        ensures
            *r == self.spec_denom(),
    {
        &self.denom
    }

    /// Construct a new `Fraction`.
    ///
    /// A reduction and `denominator == 0` check **are** performed.
    ///
    /// # Errors
    ///
    /// [`ConversionError::DivByZero`] : A `0` denominator was detected
    pub fn new_reduce(numerator: u32, denominator: u32) -> (r: Result<Self, ConversionError>)
        ensures
            denominator == 0 <==> r == Err::<Fraction, ConversionError>(ConversionError::DivByZero),
            denominator != 0 ==> (r matches Ok(f) && f.spec_numer() == reduced(
                numerator as nat,
                denominator as nat,
            ).0 && f.spec_denom() == reduced(numerator as nat, denominator as nat).1),
    {
        if denominator != 0 {
            let (n, d) = reduce_u64(numerator as u64, denominator as u64);
            proof {
                lemma_reduced(numerator as nat, denominator as nat);
            }
            Ok(Fraction { numer: n as u32, denom: d as u32 })
        } else {
            Err(ConversionError::DivByZero)
        }
    }

    /// Returns the value truncated to an integer
    pub fn to_integer(&self) -> (r: u32)
        requires
            self.spec_denom() > 0,
        ensures
            r == self.spec_numer() / self.spec_denom(),
    {
        self.numer / self.denom
    }

    /// Constructs a `Fraction` from an integer.
    ///
    /// Equivalent to `Fraction::new(value,1)`.
    pub fn from_integer(value: u32) -> (r: Self)
        ensures
            r.spec_numer() == value,
            r.spec_denom() == 1,
    {
        Fraction { numer: value, denom: 1 }
    }

    /// Returns the reciprocal of the fraction
    ///
    /// The reciprocal of zero is undefined: the numerator must not be `0`.
    pub fn recip(self) -> (r: Self)
        requires
            self.spec_numer() > 0,
        ensures
            r.spec_numer() == self.spec_denom(),
            r.spec_denom() == self.spec_numer(),
            r == self.spec_recip(),
    {
        Fraction { numer: self.denom, denom: self.numer }
    }

    /// Checked `Fraction` × `Fraction` = `Fraction`
    ///
    /// The result is reduced to lowest terms.
    ///
    /// # Errors
    ///
    /// [`ConversionError::Overflow`]
    pub fn checked_mul(&self, v: &Self) -> (r: Result<Self, ConversionError>)
        requires
            self.spec_denom() > 0,
            v.spec_denom() > 0,
        ensures
            r is Ok <==> self.spec_checked_mul(*v) is Some,
            r matches Ok(f) ==> Some(f) == self.spec_checked_mul(*v),
            r matches Err(e) ==> e == ConversionError::Overflow,
    {
        match ratio_mul_u64(
            self.numer as u64,
            self.denom as u64,
            v.numer as u64,
            v.denom as u64,
            u32::MAX as u64,
        ) {
            Some((n, d)) => Ok(Fraction { numer: n as u32, denom: d as u32 }),
            None => Err(ConversionError::Overflow),
        }
    }

    /// Checked `Fraction` / `Fraction` = `Fraction`
    ///
    /// The result is reduced to lowest terms; dividing by zero fails as an overflow does. The
    /// two denominators must not both be `0`.
    ///
    /// # Errors
    ///
    /// [`ConversionError::Overflow`]
    pub fn checked_div(&self, v: &Self) -> (r: Result<Self, ConversionError>)
        requires
            self.spec_denom() > 0 || v.spec_denom() > 0,
        ensures
            r is Ok <==> self.spec_checked_div(*v) is Some,
            r matches Ok(f) ==> Some(f) == self.spec_checked_div(*v),
            r matches Err(e) ==> e == ConversionError::Overflow,
    {
        match ratio_div_u64(
            self.numer as u64,
            self.denom as u64,
            v.numer as u64,
            v.denom as u64,
            u32::MAX as u64,
        ) {
            Some((n, d)) => Ok(Fraction { numer: n as u32, denom: d as u32 }),
            None => Err(ConversionError::Overflow),
        }
    }

    /// Checked `Fraction` × integer = `Fraction`
    ///
    /// # Errors
    ///
    /// [`ConversionError::Overflow`]
    pub fn checked_mul_integer(&self, multiplier: u32) -> (r: Result<Self, ConversionError>)
        requires
            self.spec_denom() > 0,
        ensures
            r is Ok <==> self.spec_checked_mul(Fraction::spec_new(multiplier as nat, 1)) is Some,
            r matches Ok(f) ==> Some(f) == self.spec_checked_mul(
                Fraction::spec_new(multiplier as nat, 1),
            ),
            r matches Err(e) ==> e == ConversionError::Overflow,
    {
        self.checked_mul(&Fraction::from_integer(multiplier))
    }

    /// Checked `Fraction` / integer = `Fraction`
    ///
    /// # Errors
    ///
    /// [`ConversionError::Overflow`]
    ///
    /// [`ConversionError::DivByZero`]
    pub fn checked_div_integer(&self, divisor: u32) -> (r: Result<Self, ConversionError>)
        requires
            self.spec_denom() > 0,
        ensures
            divisor == 0 ==> r == Err::<Fraction, ConversionError>(ConversionError::DivByZero),
            divisor != 0 ==> (r is Ok <==> self.spec_checked_div(
                Fraction::spec_new(divisor as nat, 1),
            ) is Some),
            divisor != 0 ==> (r matches Ok(f) ==> Some(f) == self.spec_checked_div(
                Fraction::spec_new(divisor as nat, 1),
            )),
            divisor != 0 ==> (r matches Err(e) ==> e == ConversionError::Overflow),
    {
        if divisor == 0 {
            Err(ConversionError::DivByZero)
        } else {
            self.checked_div(&Fraction::from_integer(divisor))
        }
    }

    /// Whether the value of the fraction is greater than one (the denominator must be positive
    /// for this to be the value comparison).
    pub fn gt_one(&self) -> (r: bool)
        ensures
            r == self.spec_gt_one(),
    {
        self.numer > self.denom
    }

    /// Whether the value of the fraction is at least one.
    pub fn ge_one(&self) -> (r: bool)
        ensures
            r == (self.spec_numer() >= self.spec_denom()),
    {
        self.numer >= self.denom
    }

    /// Whether the value of the fraction is at most one.
    pub fn le_one(&self) -> (r: bool)
        ensures
            r == (self.spec_numer() <= self.spec_denom()),
    {
        self.numer <= self.denom
    }

    /// Whether the value of `self` is less than that of `other` (the denominators must be
    /// positive for this to be the value comparison).
    pub fn lt_value(&self, other: &Self) -> (r: bool)
        ensures
            r == self.spec_lt_value(*other),
    {
        let (a, b) = self.cross_products(other);
        a < b
    }

    /// The two cross products `self.numer × other.denom` and `other.numer × self.denom`.
    fn cross_products(&self, other: &Self) -> (r: (u64, u64))
        ensures
            r.0 == self.spec_numer() * other.spec_denom(),
            r.1 == other.spec_numer() * self.spec_denom(),
    {
        proof {
            lemma_mul_upper_bound(
                self.numer as int,
                u32::MAX as int,
                other.denom as int,
                u32::MAX as int,
            );
            lemma_mul_upper_bound(
                other.numer as int,
                u32::MAX as int,
                self.denom as int,
                u32::MAX as int,
            );
        }
        (self.numer as u64 * other.denom as u64, other.numer as u64 * self.denom as u64)
    }
}

/// The value of a fraction `x` (with a positive denominator) is exactly that of `y`: the
/// fractions returned by [`Fraction::checked_mul`] are equal in value to the exact product.
pub proof fn lemma_checked_mul_value(x: Fraction, y: Fraction)
    requires
        x.spec_denom() > 0,
        y.spec_denom() > 0,
        x.spec_checked_mul(y) is Some,
    ensures
        ({
            let p = x.spec_checked_mul(y).unwrap();
            &&& p.spec_denom() > 0
            &&& p.spec_numer() * (x.spec_denom() * y.spec_denom()) == p.spec_denom() * (
            x.spec_numer() * y.spec_numer())
        }),
{
    lemma_ratio_mul_value(
        x.spec_numer(),
        x.spec_denom(),
        y.spec_numer(),
        y.spec_denom(),
        u32::MAX as nat,
    );
}

/// The fractions returned by [`Fraction::checked_div`] are equal in value to the exact
/// quotient.
pub proof fn lemma_checked_div_value(x: Fraction, y: Fraction)
    requires
        x.spec_denom() > 0,
        y.spec_denom() > 0,
        x.spec_checked_div(y) is Some,
    ensures
        y.spec_numer() > 0,
        ({
            let p = x.spec_checked_div(y).unwrap();
            &&& p.spec_denom() > 0
            &&& p.spec_numer() * (x.spec_denom() * y.spec_numer()) == p.spec_denom() * (
            x.spec_numer() * y.spec_denom())
        }),
{
    lemma_ratio_div_value(
        x.spec_numer(),
        x.spec_denom(),
        y.spec_numer(),
        y.spec_denom(),
        u32::MAX as nat,
    );
}

/// Taking the reciprocal twice gives back the fraction.
pub proof fn lemma_recip_involution(f: Fraction)
    ensures
        f.spec_recip().spec_recip() == f,
{
    Fraction::lemma_parts(f);
    Fraction::lemma_spec_new(f.spec_denom(), f.spec_numer());
}

impl PartialEq for Fraction {
    fn eq(&self, other: &Self) -> (r: bool) {
        let (a, b) = self.cross_products(other);
        a == b
    }
}

impl PartialEqSpecImpl for Fraction {
    open spec fn obeys_eq_spec() -> bool {
        true
    }

    open spec fn eq_spec(&self, other: &Fraction) -> bool {
        self.same_value(*other)
    }
}

impl Eq for Fraction {

}

impl PartialOrd for Fraction {
    fn partial_cmp(&self, other: &Self) -> (r: Option<Ordering>) {
        let (a, b) = self.cross_products(other);
        if a < b {
            Some(Ordering::Less)
        } else if a == b {
            Some(Ordering::Equal)
        } else {
            Some(Ordering::Greater)
        }
    }
}

impl PartialOrdSpecImpl for Fraction {
    open spec fn obeys_partial_cmp_spec() -> bool {
        true
    }

    open spec fn partial_cmp_spec(&self, other: &Fraction) -> Option<Ordering> {
        let a = self.spec_numer() * other.spec_denom();
        let b = other.spec_numer() * self.spec_denom();
        if a < b {
            Some(Ordering::Less)
        } else if a == b {
            Some(Ordering::Equal)
        } else {
            Some(Ordering::Greater)
        }
    }
}

impl Default for Fraction {
    fn default() -> (r: Self)
        ensures
            r.spec_numer() == 1,
            r.spec_denom() == 1,
    {
        Self::new(1, 1)
    }
}

/// `x × rhs`, truncated toward zero
pub fn u32_mul_fraction(x: u32, rhs: Fraction) -> (r: u32)
    requires
        rhs.spec_denom() > 0,
        scale(x as nat, rhs.spec_numer(), rhs.spec_denom()) <= u32::MAX,
    ensures
        r == scale(x as nat, rhs.spec_numer(), rhs.spec_denom()),
{
    if rhs.numer == 1 {
        proof {
            lemma_mul_basics(x as int);
        }
        x / rhs.denom
    } else {
        proof {
            lemma_mul_upper_bound(x as int, u32::MAX as int, rhs.numer as int, u32::MAX as int);
        }
        let product = x as u64 * rhs.numer as u64;
        assert(product as nat == x as nat * rhs.numer as nat);
        (product / rhs.denom as u64) as u32
    }
}

/// `x / rhs`, truncated toward zero
pub fn u32_div_fraction(x: u32, rhs: Fraction) -> (r: u32)
    requires
        rhs.spec_numer() > 0,
        scale(x as nat, rhs.spec_denom(), rhs.spec_numer()) <= u32::MAX,
    ensures
        r == scale(x as nat, rhs.spec_denom(), rhs.spec_numer()),
{
    if rhs.denom == 1 {
        proof {
            lemma_mul_basics(x as int);
        }
        x / rhs.numer
    } else {
        proof {
            lemma_mul_upper_bound(x as int, u32::MAX as int, rhs.denom as int, u32::MAX as int);
        }
        let product = x as u64 * rhs.denom as u64;
        assert(product as nat == x as nat * rhs.denom as nat);
        (product / rhs.numer as u64) as u32
    }
}

/// `x × rhs`, truncated toward zero
pub fn u64_mul_fraction(x: u64, rhs: Fraction) -> (r: u64)
    requires
        rhs.spec_denom() > 0,
        scale(x as nat, rhs.spec_numer(), rhs.spec_denom()) <= u64::MAX,
    ensures
        r == scale(x as nat, rhs.spec_numer(), rhs.spec_denom()),
{
    if rhs.numer == 1 {
        proof {
            lemma_mul_basics(x as int);
        }
        x / rhs.denom as u64
    } else {
        proof {
            lemma_mul_upper_bound(x as int, u64::MAX as int, rhs.numer as int, u32::MAX as int);
        }
        let product = x as u128 * rhs.numer as u128;
        assert(product as nat == x as nat * rhs.numer as nat);
        (product / rhs.denom as u128) as u64
    }
}

/// `x / rhs`, truncated toward zero
pub fn u64_div_fraction(x: u64, rhs: Fraction) -> (r: u64)
    requires
        rhs.spec_numer() > 0,
        scale(x as nat, rhs.spec_denom(), rhs.spec_numer()) <= u64::MAX,
    ensures
        r == scale(x as nat, rhs.spec_denom(), rhs.spec_numer()),
{
    if rhs.denom == 1 {
        proof {
            lemma_mul_basics(x as int);
        }
        x / rhs.numer as u64
    } else {
        proof {
            lemma_mul_upper_bound(x as int, u64::MAX as int, rhs.denom as int, u32::MAX as int);
        }
        let product = x as u128 * rhs.denom as u128;
        assert(product as nat == x as nat * rhs.denom as nat);
        (product / rhs.numer as u128) as u64
    }
}

impl core::ops::Mul<Fraction> for u32 {
    type Output = u32;

    /// Panicky u32 × `Fraction` = u32
    fn mul(self, rhs: Fraction) -> (r: u32) {
        u32_mul_fraction(self, rhs)
    }
}

impl MulSpecImpl<Fraction> for u32 {
    open spec fn obeys_mul_spec() -> bool {
        true
    }

    open spec fn mul_req(self, rhs: Fraction) -> bool {
        &&& rhs.spec_denom() > 0
        &&& scale(self as nat, rhs.spec_numer(), rhs.spec_denom()) <= u32::MAX
    }

    open spec fn mul_spec(self, rhs: Fraction) -> u32 {
        scale(self as nat, rhs.spec_numer(), rhs.spec_denom()) as u32
    }
}

impl core::ops::Div<Fraction> for u32 {
    type Output = u32;

    /// Panicky u32 / `Fraction` = u32
    fn div(self, rhs: Fraction) -> (r: u32) {
        u32_div_fraction(self, rhs)
    }
}

impl DivSpecImpl<Fraction> for u32 {
    open spec fn obeys_div_spec() -> bool {
        true
    }

    open spec fn div_req(self, rhs: Fraction) -> bool {
        &&& rhs.spec_numer() > 0
        &&& scale(self as nat, rhs.spec_denom(), rhs.spec_numer()) <= u32::MAX
    }

    open spec fn div_spec(self, rhs: Fraction) -> u32 {
        scale(self as nat, rhs.spec_denom(), rhs.spec_numer()) as u32
    }
}

impl core::ops::Mul<Fraction> for u64 {
    type Output = u64;

    /// Panicky u64 × `Fraction` = u64
    fn mul(self, rhs: Fraction) -> (r: u64) {
        u64_mul_fraction(self, rhs)
    }
}

impl MulSpecImpl<Fraction> for u64 {
    open spec fn obeys_mul_spec() -> bool {
        true
    }

    open spec fn mul_req(self, rhs: Fraction) -> bool {
        &&& rhs.spec_denom() > 0
        &&& scale(self as nat, rhs.spec_numer(), rhs.spec_denom()) <= u64::MAX
    }

    open spec fn mul_spec(self, rhs: Fraction) -> u64 {
        scale(self as nat, rhs.spec_numer(), rhs.spec_denom()) as u64
    }
}

impl core::ops::Div<Fraction> for u64 {
    type Output = u64;

    /// Panicky u64 / `Fraction` = u64
    fn div(self, rhs: Fraction) -> (r: u64) {
        u64_div_fraction(self, rhs)
    }
}

impl DivSpecImpl<Fraction> for u64 {
    open spec fn obeys_div_spec() -> bool {
        true
    }

    open spec fn div_req(self, rhs: Fraction) -> bool {
        &&& rhs.spec_numer() > 0
        &&& scale(self as nat, rhs.spec_denom(), rhs.spec_numer()) <= u64::MAX
    }

    open spec fn div_spec(self, rhs: Fraction) -> u64 {
        scale(self as nat, rhs.spec_denom(), rhs.spec_numer()) as u64
    }
}

/// `x × n / d` in 128 bits: `x` and `d` are first divided by their greatest common divisor, so
/// only the product `n × (x / gcd(d, x))` has to fit.
fn mul_u128_by_ratio(x: u128, n: u32, d: u32) -> (r: u128)
    requires
        d > 0,
        n as nat * (x as nat / gcd(d as nat, x as nat)) <= u128::MAX,
    ensures
        r == scale(x as nat, n as nat, d as nat),
{
    let g = gcd_u128(d as u128, x);
    proof {
        lemma_gcd_divides(d as nat, x as nat);
        lemma_exact_div(x as nat, g as nat);
        lemma_mod_multiples_basic(n as int, g as int);
        lemma_mul_mod_noop_right(n as int, x as int, g as int);
    }
    let x1 = x / g;
    let d1 = d as u128 / g;
    let p = n as u128 * x1;
    proof {
        assert(x as nat * n as nat == g * (n as nat * x1)) by (nonlinear_arith)
            requires
                x as nat == g * x1,
        ;
        assert((x as nat * n as nat) % (g as nat) == 0) by {
            lemma_mod_multiples_basic((n as nat * x1) as int, g as int);
            lemma_mul_is_commutative(g as int, (n as nat * x1) as int);
        }
        assert(p as nat == (x as nat * n as nat) / (g as nat)) by {
            lemma_div_multiples_vanish((n as nat * x1) as int, g as int);
        }
        lemma_common_factor_quotient(x as nat * n as nat, d as nat, g as nat);
    }
    p / d1
}

impl core::ops::Mul<Fraction> for u128 {
    type Output = u128;

    /// Panicky u128 × `Fraction` = u128
    fn mul(self, rhs: Fraction) -> (r: u128) {
        mul_u128_by_ratio(self, rhs.numer, rhs.denom)
    }
}

impl MulSpecImpl<Fraction> for u128 {
    open spec fn obeys_mul_spec() -> bool {
        true
    }

    open spec fn mul_req(self, rhs: Fraction) -> bool {
        &&& rhs.spec_denom() > 0
        &&& rhs.spec_numer() * (self as nat / gcd(rhs.spec_denom(), self as nat)) <= u128::MAX
    }

    open spec fn mul_spec(self, rhs: Fraction) -> u128 {
        scale(self as nat, rhs.spec_numer(), rhs.spec_denom()) as u128
    }
}

impl core::ops::Div<Fraction> for u128 {
    type Output = u128;

    /// Panicky u128 / `Fraction` = u128
    fn div(self, rhs: Fraction) -> (r: u128) {
        mul_u128_by_ratio(self, rhs.denom, rhs.numer)
    }
}

impl DivSpecImpl<Fraction> for u128 {
    open spec fn obeys_div_spec() -> bool {
        true
    }

    open spec fn div_req(self, rhs: Fraction) -> bool {
        &&& rhs.spec_numer() > 0
        &&& rhs.spec_denom() * (self as nat / gcd(rhs.spec_numer(), self as nat)) <= u128::MAX
    }

    open spec fn div_spec(self, rhs: Fraction) -> u128 {
        scale(self as nat, rhs.spec_denom(), rhs.spec_numer()) as u128
    }
}

impl core::ops::Mul for Fraction {
    type Output = Fraction;

    /// Panicky `Fraction` × `Fraction` = `Fraction` (reduced to lowest terms)
    fn mul(self, rhs: Self) -> (r: Fraction) {
        match self.checked_mul(&rhs) {
            Ok(f) => f,
            Err(_) => {
                proof {
                    assert(false);
                }
                self
            },
        }
    }
}

impl MulSpecImpl for Fraction {
    open spec fn obeys_mul_spec() -> bool {
        true
    }

    open spec fn mul_req(self, rhs: Fraction) -> bool {
        &&& self.spec_denom() > 0
        &&& rhs.spec_denom() > 0
        &&& self.spec_checked_mul(rhs) is Some
    }

    open spec fn mul_spec(self, rhs: Fraction) -> Fraction {
        self.spec_checked_mul(rhs).unwrap()
    }
}

impl core::ops::Div for Fraction {
    type Output = Fraction;

    /// Panicky `Fraction` / `Fraction` = `Fraction` (reduced to lowest terms)
    fn div(self, rhs: Self) -> (r: Fraction) {
        match self.checked_div(&rhs) {
            Ok(f) => f,
            Err(_) => {
                proof {
                    assert(false);
                }
                self
            },
        }
    }
}

impl DivSpecImpl for Fraction {
    open spec fn obeys_div_spec() -> bool {
        true
    }

    open spec fn div_req(self, rhs: Fraction) -> bool {
        &&& self.spec_denom() > 0
        &&& rhs.spec_denom() > 0
        &&& rhs.spec_numer() > 0
        &&& self.spec_checked_div(rhs) is Some
    }

    open spec fn div_spec(self, rhs: Fraction) -> Fraction {
        self.spec_checked_div(rhs).unwrap()
    }
}

} // verus!
