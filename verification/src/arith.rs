//! Integer rational arithmetic shared by [`Fraction`](crate::fraction::Fraction) and
//! [`Period`](crate::period::Period): greatest common divisors, reduction to lowest terms and
//! the overflow-checked products of two ratios (operands are cross-reduced first, as the
//! classic `Ratio` type does, so that an overflow is only reported when it cannot be avoided).
use vstd::arithmetic::div_mod::*;
use vstd::arithmetic::mul::*;
use vstd::prelude::*;

verus! {

/// Greatest common divisor (Euclid), with `gcd(a, 0) == a`.
pub open spec fn gcd(a: nat, b: nat) -> nat
    decreases b,
{
    if b == 0 {
        a
    } else {
        gcd(b, a % b)
    }
}

/// `n / m` brought to lowest terms.
pub open spec fn reduced(n: nat, m: nat) -> (nat, nat) {
    let g = gcd(n, m);
    (n / g, m / g)
}

/// `a/b × c/d` as the classic ratio type computes it in a `max`-bounded integer type:
/// `a` and `d`, then `b` and `c`, are divided by their greatest common divisor, the two
/// products are formed (failing when either exceeds `max`) and the result is reduced.
pub open spec fn ratio_mul(a: nat, b: nat, c: nat, d: nat, max: nat) -> Option<(nat, nat)> {
    let g1 = gcd(a, d);
    let g2 = gcd(b, c);
    let n = (a / g1) * (c / g2);
    let m = (b / g2) * (d / g1);
    if n <= max && m <= max {
        Some(reduced(n, m))
    } else {
        None
    }
}

/// `(a/b) / (c/d)` as the classic ratio type computes it in a `max`-bounded integer type: a
/// zero divisor (`c == 0`) fails; `a` and `c`, then `b` and `d`, are divided by their greatest
/// common divisor, the two
/// cross products are formed (failing when either exceeds `max`), a zero denominator (a zero
/// divisor) fails, and the result is reduced.
pub open spec fn ratio_div(a: nat, b: nat, c: nat, d: nat, max: nat) -> Option<(nat, nat)> {
    if c == 0 {
        None
    } else {
        let g1 = gcd(a, c);
        let g2 = gcd(b, d);
        let n = (a / g1) * (d / g2);
        let m = (b / g2) * (c / g1);
        if n <= max && m <= max && m != 0 {
            Some(reduced(n, m))
        } else {
            None
        }
    }
}

/// The greatest common divisor divides both arguments, and is positive unless both are zero.
pub proof fn lemma_gcd_divides(a: nat, b: nat)
    ensures
        (a > 0 || b > 0) ==> gcd(a, b) > 0,
        gcd(a, b) > 0 ==> a % gcd(a, b) == 0 && b % gcd(a, b) == 0,
        a > 0 ==> gcd(a, b) <= a,
    decreases b,
{
    if b == 0 {
        if a > 0 {
            lemma_mod_self_0(a as int);
            lemma_small_mod(0, a);
        }
    } else {
        let r = a % b;
        lemma_gcd_divides(b, r);
        let g = gcd(b, r);
        assert(g == gcd(a, b));
        if g > 0 {
            lemma_fundamental_div_mod(a as int, b as int);
            let q = a / b;
            assert((b * q) % g == 0) by {
                lemma_mul_mod_noop_left(b as int, q as int, g as int);
                lemma_small_mod(0, g);
            }
            assert(a % g == 0) by {
                lemma_add_mod_noop((b * q) as int, r as int, g as int);
                lemma_small_mod(0, g);
            }
            if a > 0 {
                lemma_mod_is_zero(a, g);
            }
        }
    }
}

/// A divisor `g` of `x` splits it exactly: `x == g * (x / g)`.
pub proof fn lemma_exact_div(x: nat, g: nat)
    requires
        g > 0,
        x % g == 0,
    ensures
        x == g * (x / g),
        x / g <= x,
{
    lemma_fundamental_div_mod(x as int, g as int);
    lemma_div_nonincreasing(x as int, g as int);
}

/// Reduction keeps the value of a ratio: `n/m == n'/m'` and a positive denominator stays
/// positive.
pub proof fn lemma_reduced(n: nat, m: nat)
    requires
        m > 0,
    ensures
        reduced(n, m).0 * m == reduced(n, m).1 * n,
        reduced(n, m).1 > 0,
        reduced(n, m).0 <= n,
        reduced(n, m).1 <= m,
{
    let g = gcd(n, m);
    lemma_gcd_divides(n, m);
    lemma_exact_div(n, g);
    lemma_exact_div(m, g);
    let p = n / g;
    let q = m / g;
    assert(p * m == q * n) by (nonlinear_arith)
        requires
            n == g * p,
            m == g * q,
    ;
    assert(q > 0) by (nonlinear_arith)
        requires
            m == g * q,
            m > 0,
    ;
}

/// `ratio_mul` returns the exact product: `n'/m' == (a*c)/(b*d)`.
pub proof fn lemma_ratio_mul_value(a: nat, b: nat, c: nat, d: nat, max: nat)
    requires
        b > 0,
        d > 0,
        ratio_mul(a, b, c, d, max) is Some,
    ensures
        ({
            let (p, q) = ratio_mul(a, b, c, d, max).unwrap();
            &&& p * (b * d) == q * (a * c)
            &&& q > 0
            &&& p <= max
            &&& q <= max
        }),
{
    let g1 = gcd(a, d);
    let g2 = gcd(b, c);
    lemma_gcd_divides(a, d);
    lemma_gcd_divides(b, c);
    lemma_exact_div(a, g1);
    lemma_exact_div(d, g1);
    lemma_exact_div(b, g2);
    lemma_exact_div(c, g2);
    let a1 = a / g1;
    let d1 = d / g1;
    let b1 = b / g2;
    let c1 = c / g2;
    let n = a1 * c1;
    let m = b1 * d1;
    assert(n * (b * d) == m * (a * c)) by (nonlinear_arith)
        requires
            a == g1 * a1,
            d == g1 * d1,
            b == g2 * b1,
            c == g2 * c1,
            n == a1 * c1,
            m == b1 * d1,
    ;
    assert(m > 0) by (nonlinear_arith)
        requires
            d == g1 * d1,
            b == g2 * b1,
            b > 0,
            d > 0,
            m == b1 * d1,
    ;
    lemma_reduced(n, m);
    let (p, q) = reduced(n, m);
    assert(p * (b * d) == q * (a * c)) by (nonlinear_arith)
        requires
            n * (b * d) == m * (a * c),
            p * m == q * n,
            m > 0,
    ;
}

/// `ratio_div` returns the exact quotient: `n'/m' == (a*d)/(b*c)`.
pub proof fn lemma_ratio_div_value(a: nat, b: nat, c: nat, d: nat, max: nat)
    requires
        b > 0,
        d > 0,
        ratio_div(a, b, c, d, max) is Some,
    ensures
        c > 0,
        ({
            let (p, q) = ratio_div(a, b, c, d, max).unwrap();
            &&& p * (b * c) == q * (a * d)
            &&& q > 0
            &&& p <= max
            &&& q <= max
        }),
{
    let g1 = gcd(a, c);
    let g2 = gcd(b, d);
    lemma_gcd_divides(a, c);
    lemma_gcd_divides(b, d);
    let n = (a / g1) * (d / g2);
    let m = (b / g2) * (c / g1);
    assert(g1 > 0);
    lemma_exact_div(a, g1);
    lemma_exact_div(c, g1);
    lemma_exact_div(b, g2);
    lemma_exact_div(d, g2);
    let a1 = a / g1;
    let c1 = c / g1;
    let b1 = b / g2;
    let d1 = d / g2;
    assert(n * (b * c) == m * (a * d)) by (nonlinear_arith)
        requires
            a == g1 * a1,
            c == g1 * c1,
            b == g2 * b1,
            d == g2 * d1,
            n == a1 * d1,
            m == b1 * c1,
    ;
    lemma_reduced(n, m);
    let (p, q) = reduced(n, m);
    assert(p * (b * c) == q * (a * d)) by (nonlinear_arith)
        requires
            n * (b * c) == m * (a * d),
            p * m == q * n,
            m > 0,
    ;
}

/// Greatest common divisor of two machine integers.
pub fn gcd_u64(a: u64, b: u64) -> (r: u64)
    ensures
        r == gcd(a as nat, b as nat),
{
    let mut x = a;
    let mut y = b;
    while y != 0
        invariant
            gcd(x as nat, y as nat) == gcd(a as nat, b as nat),
        decreases y,
    {
        let t = x % y;
        x = y;
        y = t;
    }
    x
}

/// Brings `n / m` to lowest terms.
pub fn reduce_u64(n: u64, m: u64) -> (r: (u64, u64))
    requires
        m > 0,
    ensures
        r.0 == reduced(n as nat, m as nat).0,
        r.1 == reduced(n as nat, m as nat).1,
{
    let g = gcd_u64(n, m);
    proof {
        lemma_gcd_divides(n as nat, m as nat);
    }
    (n / g, m / g)
}

/// Divides `x` by the greatest common divisor of `x` and `y` (a positive divisor when `y` is
/// positive), giving a value no larger than `x`.
fn div_by_gcd(x: u64, g: u64) -> (r: u64)
    requires
        g > 0,
    ensures
        r == x / g,
        r <= x,
{
    proof {
        lemma_div_nonincreasing(x as int, g as int);
    }
    x / g
}

/// Product of two factors no larger than `max`, or `None` when it exceeds `max`.
fn bounded_mul(x: u64, y: u64, max: u64) -> (r: Option<u64>)
    ensures
        r is Some <==> x * y <= max,
        r matches Some(v) ==> v == x * y,
{
    match x.checked_mul(y) {
        Some(p) => {
            if p <= max {
                Some(p)
            } else {
                None
            }
        },
        None => None,
    }
}

/// Executable [`ratio_mul`].
pub fn ratio_mul_u64(a: u64, b: u64, c: u64, d: u64, max: u64) -> (r: Option<(u64, u64)>)
    requires
        b > 0,
        d > 0,
    ensures
        r is Some <==> ratio_mul(a as nat, b as nat, c as nat, d as nat, max as nat) is Some,
        r matches Some(v) ==> ratio_mul(a as nat, b as nat, c as nat, d as nat, max as nat)
            == Some((v.0 as nat, v.1 as nat)),
{
    let g1 = gcd_u64(a, d);
    let g2 = gcd_u64(b, c);
    proof {
        lemma_gcd_divides(a as nat, d as nat);
        lemma_gcd_divides(b as nat, c as nat);
    }
    let a1 = div_by_gcd(a, g1);
    let d1 = div_by_gcd(d, g1);
    let b1 = div_by_gcd(b, g2);
    let c1 = div_by_gcd(c, g2);
    let n = bounded_mul(a1, c1, max);
    let m = bounded_mul(b1, d1, max);
    match (n, m) {
        (Some(n), Some(m)) => {
            proof {
                lemma_exact_div(d as nat, g1 as nat);
                lemma_exact_div(b as nat, g2 as nat);
                assert(m > 0) by (nonlinear_arith)
                    requires
                        d as nat == g1 * d1,
                        b as nat == g2 * b1,
                        b > 0,
                        d > 0,
                        m == b1 * d1,
                ;
            }
            Some(reduce_u64(n, m))
        },
        _ => None,
    }
}

/// Executable [`ratio_div`].
pub fn ratio_div_u64(a: u64, b: u64, c: u64, d: u64, max: u64) -> (r: Option<(u64, u64)>)
    requires
        b > 0 || d > 0,
    ensures
        r is Some <==> ratio_div(a as nat, b as nat, c as nat, d as nat, max as nat) is Some,
        r matches Some(v) ==> ratio_div(a as nat, b as nat, c as nat, d as nat, max as nat)
            == Some((v.0 as nat, v.1 as nat)),
{
    if c == 0 {
        return None;
    }
    let g1 = gcd_u64(a, c);
    let g2 = gcd_u64(b, d);
    proof {
        lemma_gcd_divides(a as nat, c as nat);
        lemma_gcd_divides(b as nat, d as nat);
    }
    let a1 = div_by_gcd(a, g1);
    let c1 = div_by_gcd(c, g1);
    let b1 = div_by_gcd(b, g2);
    let d1 = div_by_gcd(d, g2);
    let n = bounded_mul(a1, d1, max);
    let m = bounded_mul(b1, c1, max);
    match (n, m) {
        (Some(n), Some(m)) => {
            if m == 0 {
                None
            } else {
                Some(reduce_u64(n, m))
            }
        },
        _ => None,
    }
}

/// Greatest common divisor of two 128-bit integers.
pub fn gcd_u128(a: u128, b: u128) -> (r: u128)
    ensures
        r == gcd(a as nat, b as nat),
{
    let mut x = a;
    let mut y = b;
    while y != 0
        invariant
            gcd(x as nat, y as nat) == gcd(a as nat, b as nat),
        decreases y,
    {
        let t = x % y;
        x = y;
        y = t;
    }
    x
}

/// Dividing a numerator and a denominator by a common divisor keeps the truncated quotient:
/// `(g * p) / (g * q) == p / q`.
pub proof fn lemma_common_factor_quotient(x: nat, y: nat, g: nat)
    requires
        g > 0,
        y > 0,
        x % g == 0,
        y % g == 0,
    ensures
        y / g > 0,
        (x / g) / (y / g) == x / y,
{
    lemma_exact_div(x, g);
    lemma_exact_div(y, g);
    let p = x / g;
    let q = y / g;
    assert(q > 0) by (nonlinear_arith)
        requires
            y == g * q,
            y > 0,
    ;
    lemma_div_multiples_vanish_quotient(g as int, p as int, q as int);
}

/// `a - b` in an integer type whose largest value is `max`, wrapping around.
pub open spec fn wrapping_diff(a: nat, b: nat, max: nat) -> nat {
    ((a - b + max + 1) % (max + 1) as int) as nat
}

/// `a + b` in an integer type whose largest value is `max`, wrapping around.
pub open spec fn wrapping_sum(a: nat, b: nat, max: nat) -> nat {
    (a + b) % (max + 1)
}

/// Wrapping addition and subtraction of `t` undo each other, and the wrapped difference of
/// `a + t` and `a` is `t`.
pub proof fn lemma_wrapping_inverse(a: nat, t: nat, max: nat)
    requires
        a <= max,
        t <= max,
    ensures
        wrapping_diff(wrapping_sum(a, t, max), t, max) == a,
        wrapping_sum(wrapping_diff(a, t, max), t, max) == a,
        wrapping_diff(wrapping_sum(a, t, max), a, max) == t,
{
    let m = (max + 1) as int;
    let s = ((a + t) as int) % m;
    lemma_small_mod(a, m as nat);
    lemma_small_mod(t, m as nat);
    lemma_mod_add_multiples_vanish(a as int, m);
    lemma_mod_add_multiples_vanish(t as int, m);
    assert(((m - t) + s) % m == a) by {
        lemma_add_mod_noop_right(m - t, (a + t) as int, m);
    }
    assert(((m - a) + s) % m == t) by {
        lemma_add_mod_noop_right(m - a, (a + t) as int, m);
    }
    assert((t + (a - t + m) % m) % m == a) by {
        lemma_add_mod_noop_right(t as int, a - t + m, m);
    }
}

/// `floor(t × n1 × d2 / (d1 × n2))`: `t` scaled by `n1/d1` and divided by `n2/d2`, exactly.
pub open spec fn rescale(t: nat, n1: nat, d1: nat, n2: nat, d2: nat) -> nat {
    (t * n1 * d2) / (d1 * n2)
}

/// [`rescale`] computed exactly in 128 bits: the product of a 64-bit and two 32-bit factors
/// always fits.
pub fn rescale_u128(t: u64, n1: u32, d1: u32, n2: u32, d2: u32) -> (r: u128)
    requires
        d1 > 0,
        n2 > 0,
    ensures
        r == rescale(t as nat, n1 as nat, d1 as nat, n2 as nat, d2 as nat),
{
    proof {
        lemma_mul_upper_bound(t as int, u64::MAX as int, n1 as int, u32::MAX as int);
        lemma_mul_upper_bound(
            (t * n1) as int,
            (u64::MAX * u32::MAX) as int,
            d2 as int,
            u32::MAX as int,
        );
        assert((u64::MAX as int) * (u32::MAX as int) * (u32::MAX as int) <= u128::MAX);
        lemma_mul_upper_bound(d1 as int, u32::MAX as int, n2 as int, u32::MAX as int);
        lemma_mul_strictly_positive(d1 as int, n2 as int);
    }
    let num = t as u128 * n1 as u128 * d2 as u128;
    let den = d1 as u128 * n2 as u128;
    num / den
}

/// Two quotients of the same rational value truncate alike: `a / b == c / d` when
/// `a × d == c × b`.
pub proof fn lemma_same_ratio_same_quotient(a: nat, b: nat, c: nat, d: nat)
    requires
        b > 0,
        d > 0,
        a * d == c * b,
    ensures
        a / b == c / d,
{
    let q = a / b;
    let r = a % b;
    lemma_fundamental_div_mod(a as int, b as int);
    lemma_mod_bound(a as int, b as int);
    let s = c - q * d;
    assert(s * b == r * d) by (nonlinear_arith)
        requires
            a == b * q + r,
            a * d == c * b,
            s == c - q * d,
    ;
    assert(0 <= s < d) by (nonlinear_arith)
        requires
            s * b == r * d,
            0 <= r < b,
            b > 0,
            d > 0,
    ;
    lemma_fundamental_div_mod_converse(c as int, d as int, q as int, s as int);
}

/// The terms of a quotient that [`ratio_div`] forms fit the bound, and its denominator is
/// positive.
pub proof fn lemma_ratio_div_bounds(a: nat, b: nat, c: nat, d: nat, max: nat)
    requires
        ratio_div(a, b, c, d, max) is Some,
    ensures
        ratio_div(a, b, c, d, max).unwrap().0 <= max,
        ratio_div(a, b, c, d, max).unwrap().1 <= max,
        ratio_div(a, b, c, d, max).unwrap().1 > 0,
{
    let g1 = gcd(a, c);
    let g2 = gcd(b, d);
    let n = (a / g1) * (d / g2);
    let m = (b / g2) * (c / g1);
    lemma_reduced(n, m);
}

} // verus!
