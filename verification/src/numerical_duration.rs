//! Scaling signed integers by a [`Period`]
use crate::integer::IntTrait;
use crate::period::Period;
use crate::ratio::trunc_div;
use vstd::prelude::*;

verus! {

/// `x × n / d` in a signed integer type of range `min..=max`, each step as Rust's checked
/// arithmetic computes it: `None` when `n` or `d` does not fit in the type, when the product
/// does not fit, or when `d` is `0`; the division truncates toward zero.
pub open spec fn spec_rep_scale(x: int, n: nat, d: nat, min: int, max: int) -> Option<int> {
    if n > max || x * n < min || x * n > max || d > max || d == 0 {
        None
    } else {
        Some(trunc_div(x * n, d as int))
    }
}

/// Signed integers that can be scaled by a [`Period`]
pub trait TimeRep: IntTrait {
    /// Checked integer × [`Period`] = integer: `self × numerator / denominator`
    ///
    /// Returns the truncated (rounded toward `0`) integer, or [`None`] upon failure
    fn checked_mul(&self, ratio: &Period) -> (r: Option<Self>)
        ensures
            r is Some <==> spec_rep_scale(
                self.spec_int(),
                ratio.spec_numer(),
                ratio.spec_denom(),
                Self::spec_min(),
                Self::spec_max(),
            ) is Some,
            r matches Some(v) ==> Some(v.spec_int()) == spec_rep_scale(
                self.spec_int(),
                ratio.spec_numer(),
                ratio.spec_denom(),
                Self::spec_min(),
                Self::spec_max(),
            ),
    ;

    /// Checked integer / [`Period`] = integer: `self × denominator / numerator`
    ///
    /// Returns the truncated (rounded toward `0`) integer, or [`None`] upon failure
    fn checked_div(&self, ratio: &Period) -> (r: Option<Self>)
        ensures
            r is Some <==> spec_rep_scale(
                self.spec_int(),
                ratio.spec_denom(),
                ratio.spec_numer(),
                Self::spec_min(),
                Self::spec_max(),
            ) is Some,
            r matches Some(v) ==> Some(v.spec_int()) == spec_rep_scale(
                self.spec_int(),
                ratio.spec_denom(),
                ratio.spec_numer(),
                Self::spec_min(),
                Self::spec_max(),
            ),
    ;
}

/// `x × n / d` in `i32`, as [`spec_rep_scale`] describes it.
fn scale_i32(x: i32, n: u32, d: u32) -> (r: Option<i32>)
    ensures
        r is Some <==> spec_rep_scale(x as int, n as nat, d as nat, i32::MIN as int, i32::MAX as int) is Some,
        r matches Some(v) ==> Some(v as int) == spec_rep_scale(
            x as int,
            n as nat,
            d as nat,
            i32::MIN as int,
            i32::MAX as int,
        ),
{
    if n as u64 > i32::MAX as u64 || d as u64 > i32::MAX as u64 {
        return None;
    }
    match i32::checked_mul(x, n as i32) {
        Some(p) => i32::checked_div(p, d as i32),
        None => None,
    }
}

impl TimeRep for i32 {
    fn checked_mul(&self, ratio: &Period) -> (r: Option<i32>) {
        scale_i32(*self, *ratio.numerator(), *ratio.denominator())
    }

    fn checked_div(&self, ratio: &Period) -> (r: Option<i32>) {
        scale_i32(*self, *ratio.denominator(), *ratio.numerator())
    }
}

/// `x × n / d` in `i64`, as [`spec_rep_scale`] describes it.
fn scale_i64(x: i64, n: u32, d: u32) -> (r: Option<i64>)
    ensures
        r is Some <==> spec_rep_scale(x as int, n as nat, d as nat, i64::MIN as int, i64::MAX as int) is Some,
        r matches Some(v) ==> Some(v as int) == spec_rep_scale(
            x as int,
            n as nat,
            d as nat,
            i64::MIN as int,
            i64::MAX as int,
        ),
{
    if n as u64 > i64::MAX as u64 || d as u64 > i64::MAX as u64 {
        return None;
    }
    match i64::checked_mul(x, n as i64) {
        Some(p) => i64::checked_div(p, d as i64),
        None => None,
    }
}

impl TimeRep for i64 {
    fn checked_mul(&self, ratio: &Period) -> (r: Option<i64>) {
        scale_i64(*self, *ratio.numerator(), *ratio.denominator())
    }

    fn checked_div(&self, ratio: &Period) -> (r: Option<i64>) {
        scale_i64(*self, *ratio.denominator(), *ratio.numerator())
    }
}

} // verus!
