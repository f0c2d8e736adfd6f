//! Signed integer types that can express durations
use crate::integer::IntTrait;
use vstd::prelude::*;

verus! {

/// The signed integer types that can express durations: `i32` and `i64`
pub trait NumericalDuration: IntTrait {

}

impl NumericalDuration for i32 {

}

impl NumericalDuration for i64 {

}

} // verus!
