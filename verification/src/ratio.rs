//! A plain ratio of two integers, used to scale signed integers
use vstd::prelude::*;
use vstd::std_specs::cmp::PartialEqSpec;
use vstd::std_specs::cmp::PartialEqSpecImpl;
use vstd::std_specs::ops::MulSpecImpl;

verus! {

/// `x / d` truncated toward zero, as Rust's integer division computes it (for `d != 0`).
pub open spec fn trunc_div(x: int, d: int) -> int {
    if x == 0 {
        0
    } else if x > 0 && d > 0 {
        x / d
    } else if x < 0 && d < 0 {
        (x * -1) / (d * -1)
    } else if x < 0 {
        ((x * -1) / d) * -1
    } else {
        (x / (d * -1)) * -1
    }
}

/// A ratio `numerator / denominator`, kept as given (no reduction)
#[derive(Copy, Clone, Debug)]
pub struct Ratio<T> where T: Copy {
    numerator: T,
    denominator: T,
}

impl<T> Ratio<T> where T: Copy {
    /// The numerator
    pub closed spec fn spec_numerator(self) -> T {
        self.numerator
    }

    /// The denominator
    pub closed spec fn spec_denominator(self) -> T {
        self.denominator
    }
}

impl<T> Ratio<T> where T: Copy + core::ops::Div<Output = T> {
    /// Construct a new `Ratio` (no reduction, and no check of the denominator)
    pub fn new(numerator: T, denominator: T) -> (r: Self)
        ensures
            r.spec_numerator() == numerator,
            r.spec_denominator() == denominator,
    {
        Self { numerator, denominator }
    }
}

impl<T: PartialEq + Copy> PartialEq for Ratio<T> {
    /// Two ratios are equal when their numerators and their denominators are
    fn eq(&self, other: &Self) -> (r: bool) {
        self.numerator == other.numerator && self.denominator == other.denominator
    }
}

impl<T: PartialEq + Copy> PartialEqSpecImpl for Ratio<T> {
    open spec fn obeys_eq_spec() -> bool {
        T::obeys_eq_spec()
    }

    open spec fn eq_spec(&self, other: &Self) -> bool {
        self.spec_numerator().eq_spec(&other.spec_numerator()) && self.spec_denominator().eq_spec(
            &other.spec_denominator(),
        )
    }
}

/// `x × n / d`, each step as Rust's `i64` arithmetic computes it: `None` when the product does
/// not fit, the denominator is `0` or the quotient does not fit.
pub open spec fn spec_scale_i64(x: int, n: int, d: int) -> Option<int> {
    let p = x * n;
    if p < i64::MIN || p > i64::MAX || d == 0 || trunc_div(p, d) > i64::MAX {
        None
    } else {
        Some(trunc_div(p, d))
    }
}

impl core::ops::Mul<Ratio<i64>> for i64 {
    type Output = i64;

    /// Panicky `i64` × `Ratio<i64>` = `i64`: `self × numerator / denominator`, the division
    /// truncated toward zero
    fn mul(self, rhs: Ratio<i64>) -> (r: i64) {
        match self.checked_mul(rhs.numerator) {
            Some(p) => match p.checked_div(rhs.denominator) {
                Some(q) => q,
                None => {
                    proof {
                        assert(false);
                    }
                    0
                },
            },
            None => {
                proof {
                    assert(false);
                }
                0
            },
        }
    }
}

impl MulSpecImpl<Ratio<i64>> for i64 {
    open spec fn obeys_mul_spec() -> bool {
        true
    }

    open spec fn mul_req(self, rhs: Ratio<i64>) -> bool {
        spec_scale_i64(
            self as int,
            rhs.spec_numerator() as int,
            rhs.spec_denominator() as int,
        ) is Some
    }

    open spec fn mul_spec(self, rhs: Ratio<i64>) -> i64 {
        spec_scale_i64(
            self as int,
            rhs.spec_numerator() as int,
            rhs.spec_denominator() as int,
        )->Some_0 as i64
    }
}

} // verus!
