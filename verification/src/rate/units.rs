//! Rate-type units
use crate::fixed_point::{
    fixed_order, from_ticks, spec_convert, spec_fixed_eq, spec_from_ticks, FixedPoint,
    FixedPointOps,
};
use crate::fraction::Fraction;
use crate::rate::{Generic, Rate};
use crate::time_int::TimeInt;
use crate::ConversionError;
use core::cmp::Ordering;
use vstd::prelude::*;
use vstd::std_specs::cmp::PartialEqSpecImpl;
use vstd::std_specs::cmp::PartialOrdSpecImpl;
use vstd::std_specs::convert::FromSpecImpl;
use vstd::std_specs::convert::TryFromSpecImpl;
use vstd::std_specs::ops::AddSpecImpl;
use vstd::std_specs::ops::RemSpecImpl;
use vstd::std_specs::ops::SubSpecImpl;

verus! {

/// A rate unit type: Hertz × 1,000,000
#[derive(Clone, Copy, Debug, Eq)]
pub struct Megahertz<T: TimeInt = u32>(pub T);

impl<T: TimeInt> Megahertz<T> {
    /// Construct a new value of this unit
    pub fn new(value: T) -> (r: Self)
        ensures
            r.0 == value,
    {
        Self(value)
    }

    /// Construct this unit from a `Generic` value of any scaling factor (with a positive
    /// denominator)
    ///
    /// # Errors
    ///
    /// As [`from_ticks`]
    pub fn try_from_generic<SourceInt: TimeInt>(generic: Generic<SourceInt>) -> (r: Result<
        Self,
        ConversionError,
    >)
        requires
            generic.spec_scaling_factor().spec_denom() > 0,
        ensures
            match spec_from_ticks(
                generic.spec_integer().spec_value(),
                SourceInt::spec_max(),
                generic.spec_scaling_factor(),
                T::spec_max(),
                Self::spec_scaling_factor(),
            ) {
                Ok(v) => r matches Ok(d) && d.0.spec_value() == v,
                Err(e) => r == Err::<Self, ConversionError>(e),
            },
    {
        from_ticks(*generic.integer(), *generic.scaling_factor())
    }
}

impl<T: TimeInt> Rate for Megahertz<T> {

}

impl<T: TimeInt> FixedPoint for Megahertz<T> {
    type T = T;

    open spec fn spec_scaling_factor() -> Fraction {
        Fraction::spec_new(1000000, 1)
    }

    proof fn lemma_scaling_factor() {
        Fraction::lemma_spec_new(1000000, 1);
    }

    fn scaling_factor() -> (r: Fraction) {
        Fraction::new(1000000, 1)
    }

    open spec fn spec_integer(self) -> T {
        self.0
    }

    fn new(value: T) -> (r: Self) {
        Self(value)
    }

    fn integer(&self) -> (r: &T) {
        &self.0
    }
}

impl<T: TimeInt, Rhs: FixedPoint> PartialEq<Rhs> for Megahertz<T> {
    fn eq(&self, rhs: &Rhs) -> (r: bool) {
        FixedPointOps::eq(self, rhs)
    }
}

impl<T: TimeInt, Rhs: FixedPoint> PartialEqSpecImpl<Rhs> for Megahertz<T> {
    open spec fn obeys_eq_spec() -> bool {
        true
    }

    open spec fn eq_spec(&self, rhs: &Rhs) -> bool {
        spec_fixed_eq(*self, *rhs)
    }
}

impl<T: TimeInt, Rhs: FixedPoint> PartialOrd<Rhs> for Megahertz<T> {
    fn partial_cmp(&self, rhs: &Rhs) -> (r: Option<Ordering>) {
        FixedPointOps::partial_cmp(self, rhs)
    }
}

impl<T: TimeInt, Rhs: FixedPoint> PartialOrdSpecImpl<Rhs> for Megahertz<T> {
    open spec fn obeys_partial_cmp_spec() -> bool {
        true
    }

    open spec fn partial_cmp_spec(&self, rhs: &Rhs) -> Option<Ordering> {
        Some(fixed_order(*self, *rhs))
    }
}

impl<T: TimeInt, Rhs: FixedPoint> core::ops::Add<Rhs> for Megahertz<T> {
    type Output = Self;

    /// Returns the sum as the LHS type
    fn add(self, rhs: Rhs) -> (r: Self) {
        let r = FixedPointOps::add(self, rhs);
        proof {
            let v = self.0.spec_value() + spec_convert::<Rhs, Self>(rhs)->Ok_0;
            T::lemma_from_nat(v);
            T::lemma_range(r.0, T::spec_from_nat(v));
        }
        r
    }
}

impl<T: TimeInt, Rhs: FixedPoint> AddSpecImpl<Rhs> for Megahertz<T> {
    open spec fn obeys_add_spec() -> bool {
        true
    }

    open spec fn add_req(self, rhs: Rhs) -> bool {
        &&& spec_convert::<Rhs, Self>(rhs) is Ok
        &&& self.0.spec_value() + spec_convert::<Rhs, Self>(rhs)->Ok_0 <= T::spec_max()
    }

    open spec fn add_spec(self, rhs: Rhs) -> Self {
        Megahertz(T::spec_from_nat(self.0.spec_value() + spec_convert::<Rhs, Self>(rhs)->Ok_0))
    }
}

impl<T: TimeInt, Rhs: FixedPoint> core::ops::Sub<Rhs> for Megahertz<T> {
    type Output = Self;

    /// Returns the difference as the LHS type
    fn sub(self, rhs: Rhs) -> (r: Self) {
        let r = FixedPointOps::sub(self, rhs);
        proof {
            let v = (self.0.spec_value() - spec_convert::<Rhs, Self>(rhs)->Ok_0) as nat;
            T::lemma_range(self.0, self.0);
            T::lemma_from_nat(v);
            T::lemma_range(r.0, T::spec_from_nat(v));
        }
        r
    }
}

impl<T: TimeInt, Rhs: FixedPoint> SubSpecImpl<Rhs> for Megahertz<T> {
    open spec fn obeys_sub_spec() -> bool {
        true
    }

    open spec fn sub_req(self, rhs: Rhs) -> bool {
        &&& spec_convert::<Rhs, Self>(rhs) is Ok
        &&& self.0.spec_value() >= spec_convert::<Rhs, Self>(rhs)->Ok_0
    }

    open spec fn sub_spec(self, rhs: Rhs) -> Self {
        Megahertz(T::spec_from_nat((self.0.spec_value() - spec_convert::<Rhs, Self>(rhs)->Ok_0) as nat))
    }
}

impl<T: TimeInt, Rhs: FixedPoint> core::ops::Rem<Rhs> for Megahertz<T> {
    type Output = Self;

    /// Returns the remainder as the LHS type
    fn rem(self, rhs: Rhs) -> (r: Self) {
        let r = FixedPointOps::rem(self, rhs);
        proof {
            if spec_convert::<Rhs, Self>(rhs) is Ok {
                let v = spec_convert::<Rhs, Self>(rhs)->Ok_0;
                let m: nat = if v > 0 {
                    self.0.spec_value() % v
                } else {
                    0
                };
                T::lemma_range(self.0, self.0);
                T::lemma_from_nat(m);
                T::lemma_range(r.0, T::spec_from_nat(m));
            }
        }
        r
    }
}

impl<T: TimeInt, Rhs: FixedPoint> RemSpecImpl<Rhs> for Megahertz<T> {
    open spec fn obeys_rem_spec() -> bool {
        true
    }

    open spec fn rem_req(self, rhs: Rhs) -> bool {
        true
    }

    open spec fn rem_spec(self, rhs: Rhs) -> Self {
        match spec_convert::<Rhs, Self>(rhs) {
            Ok(v) => Megahertz(
                T::spec_from_nat(
                    if v > 0 {
                        self.0.spec_value() % v
                    } else {
                        0
                    },
                ),
            ),
            Err(_) => self,
        }
    }
}

impl<SourceInt: TimeInt, DestInt: TimeInt> TryFrom<Generic<SourceInt>> for Megahertz<DestInt> {
    type Error = ConversionError;

    /// Construct this unit from a `Generic` value (a scaling factor with a zero denominator is
    /// reported as [`ConversionError::DivByZero`])
    fn try_from(generic: Generic<SourceInt>) -> (r: Result<Self, ConversionError>) {
        if *generic.scaling_factor().denominator() == 0 {
            Err(ConversionError::DivByZero)
        } else {
            let r = Self::try_from_generic(generic);
            proof {
                if r is Ok {
                    DestInt::lemma_range(r->Ok_0.0, r->Ok_0.0);
                    DestInt::lemma_from_nat(r->Ok_0.0.spec_value());
                    DestInt::lemma_range(r->Ok_0.0, DestInt::spec_from_nat(r->Ok_0.0.spec_value()));
                }
            }
            r
        }
    }
}

impl<SourceInt: TimeInt, DestInt: TimeInt> TryFromSpecImpl<Generic<SourceInt>> for Megahertz<DestInt> {
    open spec fn obeys_try_from_spec() -> bool {
        true
    }

    open spec fn try_from_spec(generic: Generic<SourceInt>) -> Result<Self, ConversionError> {
        if generic.spec_scaling_factor().spec_denom() == 0 {
            Err(ConversionError::DivByZero)
        } else {
            match spec_from_ticks(
                generic.spec_integer().spec_value(),
                SourceInt::spec_max(),
                generic.spec_scaling_factor(),
                DestInt::spec_max(),
                Fraction::spec_new(1000000, 1),
            ) {
                Ok(v) => Ok(Megahertz(DestInt::spec_from_nat(v))),
                Err(e) => Err(e),
            }
        }
    }
}

impl<T: TimeInt> From<Megahertz<T>> for Generic<T> {
    /// The `Generic` `Rate` of the same integer and scaling factor
    fn from(rate: Megahertz<T>) -> (r: Self) {
        Self::new(rate.0, Fraction::new(1000000, 1))
    }
}

impl<T: TimeInt> FromSpecImpl<Megahertz<T>> for Generic<T> {
    open spec fn obeys_from_spec() -> bool {
        true
    }

    open spec fn from_spec(rate: Megahertz<T>) -> Self {
        Generic::spec_new(rate.0, Fraction::spec_new(1000000, 1))
    }
}

/// A rate unit type: Hertz × 1,000
#[derive(Clone, Copy, Debug, Eq)]
pub struct Kilohertz<T: TimeInt = u32>(pub T);

impl<T: TimeInt> Kilohertz<T> {
    /// Construct a new value of this unit
    pub fn new(value: T) -> (r: Self)
        ensures
            r.0 == value,
    {
        Self(value)
    }

    /// Construct this unit from a `Generic` value of any scaling factor (with a positive
    /// denominator)
    ///
    /// # Errors
    ///
    /// As [`from_ticks`]
    pub fn try_from_generic<SourceInt: TimeInt>(generic: Generic<SourceInt>) -> (r: Result<
        Self,
        ConversionError,
    >)
        requires
            generic.spec_scaling_factor().spec_denom() > 0,
        ensures
            match spec_from_ticks(
                generic.spec_integer().spec_value(),
                SourceInt::spec_max(),
                generic.spec_scaling_factor(),
                T::spec_max(),
                Self::spec_scaling_factor(),
            ) {
                Ok(v) => r matches Ok(d) && d.0.spec_value() == v,
                Err(e) => r == Err::<Self, ConversionError>(e),
            },
    {
        from_ticks(*generic.integer(), *generic.scaling_factor())
    }
}

impl<T: TimeInt> Rate for Kilohertz<T> {

}

impl<T: TimeInt> FixedPoint for Kilohertz<T> {
    type T = T;

    open spec fn spec_scaling_factor() -> Fraction {
        Fraction::spec_new(1000, 1)
    }

    proof fn lemma_scaling_factor() {
        Fraction::lemma_spec_new(1000, 1);
    }

    fn scaling_factor() -> (r: Fraction) {
        Fraction::new(1000, 1)
    }

    open spec fn spec_integer(self) -> T {
        self.0
    }

    fn new(value: T) -> (r: Self) {
        Self(value)
    }

    fn integer(&self) -> (r: &T) {
        &self.0
    }
}

impl<T: TimeInt, Rhs: FixedPoint> PartialEq<Rhs> for Kilohertz<T> {
    fn eq(&self, rhs: &Rhs) -> (r: bool) {
        FixedPointOps::eq(self, rhs)
    }
}

impl<T: TimeInt, Rhs: FixedPoint> PartialEqSpecImpl<Rhs> for Kilohertz<T> {
    open spec fn obeys_eq_spec() -> bool {
        true
    }

    open spec fn eq_spec(&self, rhs: &Rhs) -> bool {
        spec_fixed_eq(*self, *rhs)
    }
}

impl<T: TimeInt, Rhs: FixedPoint> PartialOrd<Rhs> for Kilohertz<T> {
    fn partial_cmp(&self, rhs: &Rhs) -> (r: Option<Ordering>) {
        FixedPointOps::partial_cmp(self, rhs)
    }
}

impl<T: TimeInt, Rhs: FixedPoint> PartialOrdSpecImpl<Rhs> for Kilohertz<T> {
    open spec fn obeys_partial_cmp_spec() -> bool {
        true
    }

    open spec fn partial_cmp_spec(&self, rhs: &Rhs) -> Option<Ordering> {
        Some(fixed_order(*self, *rhs))
    }
}

impl<T: TimeInt, Rhs: FixedPoint> core::ops::Add<Rhs> for Kilohertz<T> {
    type Output = Self;

    /// Returns the sum as the LHS type
    fn add(self, rhs: Rhs) -> (r: Self) {
        let r = FixedPointOps::add(self, rhs);
        proof {
            let v = self.0.spec_value() + spec_convert::<Rhs, Self>(rhs)->Ok_0;
            T::lemma_from_nat(v);
            T::lemma_range(r.0, T::spec_from_nat(v));
        }
        r
    }
}

impl<T: TimeInt, Rhs: FixedPoint> AddSpecImpl<Rhs> for Kilohertz<T> {
    open spec fn obeys_add_spec() -> bool {
        true
    }

    open spec fn add_req(self, rhs: Rhs) -> bool {
        &&& spec_convert::<Rhs, Self>(rhs) is Ok
        &&& self.0.spec_value() + spec_convert::<Rhs, Self>(rhs)->Ok_0 <= T::spec_max()
    }

    open spec fn add_spec(self, rhs: Rhs) -> Self {
        Kilohertz(T::spec_from_nat(self.0.spec_value() + spec_convert::<Rhs, Self>(rhs)->Ok_0))
    }
}

impl<T: TimeInt, Rhs: FixedPoint> core::ops::Sub<Rhs> for Kilohertz<T> {
    type Output = Self;

    /// Returns the difference as the LHS type
    fn sub(self, rhs: Rhs) -> (r: Self) {
        let r = FixedPointOps::sub(self, rhs);
        proof {
            let v = (self.0.spec_value() - spec_convert::<Rhs, Self>(rhs)->Ok_0) as nat;
            T::lemma_range(self.0, self.0);
            T::lemma_from_nat(v);
            T::lemma_range(r.0, T::spec_from_nat(v));
        }
        r
    }
}

impl<T: TimeInt, Rhs: FixedPoint> SubSpecImpl<Rhs> for Kilohertz<T> {
    open spec fn obeys_sub_spec() -> bool {
        true
    }

    open spec fn sub_req(self, rhs: Rhs) -> bool {
        &&& spec_convert::<Rhs, Self>(rhs) is Ok
        &&& self.0.spec_value() >= spec_convert::<Rhs, Self>(rhs)->Ok_0
    }

    open spec fn sub_spec(self, rhs: Rhs) -> Self {
        Kilohertz(T::spec_from_nat((self.0.spec_value() - spec_convert::<Rhs, Self>(rhs)->Ok_0) as nat))
    }
}

impl<T: TimeInt, Rhs: FixedPoint> core::ops::Rem<Rhs> for Kilohertz<T> {
    type Output = Self;

    /// Returns the remainder as the LHS type
    fn rem(self, rhs: Rhs) -> (r: Self) {
        let r = FixedPointOps::rem(self, rhs);
        proof {
            if spec_convert::<Rhs, Self>(rhs) is Ok {
                let v = spec_convert::<Rhs, Self>(rhs)->Ok_0;
                let m: nat = if v > 0 {
                    self.0.spec_value() % v
                } else {
                    0
                };
                T::lemma_range(self.0, self.0);
                T::lemma_from_nat(m);
                T::lemma_range(r.0, T::spec_from_nat(m));
            }
        }
        r
    }
}

impl<T: TimeInt, Rhs: FixedPoint> RemSpecImpl<Rhs> for Kilohertz<T> {
    open spec fn obeys_rem_spec() -> bool {
        true
    }

    open spec fn rem_req(self, rhs: Rhs) -> bool {
        true
    }

    open spec fn rem_spec(self, rhs: Rhs) -> Self {
        match spec_convert::<Rhs, Self>(rhs) {
            Ok(v) => Kilohertz(
                T::spec_from_nat(
                    if v > 0 {
                        self.0.spec_value() % v
                    } else {
                        0
                    },
                ),
            ),
            Err(_) => self,
        }
    }
}

impl<SourceInt: TimeInt, DestInt: TimeInt> TryFrom<Generic<SourceInt>> for Kilohertz<DestInt> {
    type Error = ConversionError;

    /// Construct this unit from a `Generic` value (a scaling factor with a zero denominator is
    /// reported as [`ConversionError::DivByZero`])
    fn try_from(generic: Generic<SourceInt>) -> (r: Result<Self, ConversionError>) {
        if *generic.scaling_factor().denominator() == 0 {
            Err(ConversionError::DivByZero)
        } else {
            let r = Self::try_from_generic(generic);
            proof {
                if r is Ok {
                    DestInt::lemma_range(r->Ok_0.0, r->Ok_0.0);
                    DestInt::lemma_from_nat(r->Ok_0.0.spec_value());
                    DestInt::lemma_range(r->Ok_0.0, DestInt::spec_from_nat(r->Ok_0.0.spec_value()));
                }
            }
            r
        }
    }
}

impl<SourceInt: TimeInt, DestInt: TimeInt> TryFromSpecImpl<Generic<SourceInt>> for Kilohertz<DestInt> {
    open spec fn obeys_try_from_spec() -> bool {
        true
    }

    open spec fn try_from_spec(generic: Generic<SourceInt>) -> Result<Self, ConversionError> {
        if generic.spec_scaling_factor().spec_denom() == 0 {
            Err(ConversionError::DivByZero)
        } else {
            match spec_from_ticks(
                generic.spec_integer().spec_value(),
                SourceInt::spec_max(),
                generic.spec_scaling_factor(),
                DestInt::spec_max(),
                Fraction::spec_new(1000, 1),
            ) {
                Ok(v) => Ok(Kilohertz(DestInt::spec_from_nat(v))),
                Err(e) => Err(e),
            }
        }
    }
}

impl<T: TimeInt> From<Kilohertz<T>> for Generic<T> {
    /// The `Generic` `Rate` of the same integer and scaling factor
    fn from(rate: Kilohertz<T>) -> (r: Self) {
        Self::new(rate.0, Fraction::new(1000, 1))
    }
}

impl<T: TimeInt> FromSpecImpl<Kilohertz<T>> for Generic<T> {
    open spec fn obeys_from_spec() -> bool {
        true
    }

    open spec fn from_spec(rate: Kilohertz<T>) -> Self {
        Generic::spec_new(rate.0, Fraction::spec_new(1000, 1))
    }
}

/// A rate unit type: Hertz
#[derive(Clone, Copy, Debug, Eq)]
pub struct Hertz<T: TimeInt = u32>(pub T);

impl<T: TimeInt> Hertz<T> {
    /// Construct a new value of this unit
    pub fn new(value: T) -> (r: Self)
        ensures
            r.0 == value,
    {
        Self(value)
    }

    /// Construct this unit from a `Generic` value of any scaling factor (with a positive
    /// denominator)
    ///
    /// # Errors
    ///
    /// As [`from_ticks`]
    pub fn try_from_generic<SourceInt: TimeInt>(generic: Generic<SourceInt>) -> (r: Result<
        Self,
        ConversionError,
    >)
        requires
            generic.spec_scaling_factor().spec_denom() > 0,
        ensures
            match spec_from_ticks(
                generic.spec_integer().spec_value(),
                SourceInt::spec_max(),
                generic.spec_scaling_factor(),
                T::spec_max(),
                Self::spec_scaling_factor(),
            ) {
                Ok(v) => r matches Ok(d) && d.0.spec_value() == v,
                Err(e) => r == Err::<Self, ConversionError>(e),
            },
    {
        from_ticks(*generic.integer(), *generic.scaling_factor())
    }
}

impl<T: TimeInt> Rate for Hertz<T> {

}

impl<T: TimeInt> FixedPoint for Hertz<T> {
    type T = T;

    open spec fn spec_scaling_factor() -> Fraction {
        Fraction::spec_new(1, 1)
    }

    proof fn lemma_scaling_factor() {
        Fraction::lemma_spec_new(1, 1);
    }

    fn scaling_factor() -> (r: Fraction) {
        Fraction::new(1, 1)
    }

    open spec fn spec_integer(self) -> T {
        self.0
    }

    fn new(value: T) -> (r: Self) {
        Self(value)
    }

    fn integer(&self) -> (r: &T) {
        &self.0
    }
}

impl<T: TimeInt, Rhs: FixedPoint> PartialEq<Rhs> for Hertz<T> {
    fn eq(&self, rhs: &Rhs) -> (r: bool) {
        FixedPointOps::eq(self, rhs)
    }
}

impl<T: TimeInt, Rhs: FixedPoint> PartialEqSpecImpl<Rhs> for Hertz<T> {
    open spec fn obeys_eq_spec() -> bool {
        true
    }

    open spec fn eq_spec(&self, rhs: &Rhs) -> bool {
        spec_fixed_eq(*self, *rhs)
    }
}

impl<T: TimeInt, Rhs: FixedPoint> PartialOrd<Rhs> for Hertz<T> {
    fn partial_cmp(&self, rhs: &Rhs) -> (r: Option<Ordering>) {
        FixedPointOps::partial_cmp(self, rhs)
    }
}

impl<T: TimeInt, Rhs: FixedPoint> PartialOrdSpecImpl<Rhs> for Hertz<T> {
    open spec fn obeys_partial_cmp_spec() -> bool {
        true
    }

    open spec fn partial_cmp_spec(&self, rhs: &Rhs) -> Option<Ordering> {
        Some(fixed_order(*self, *rhs))
    }
}

impl<T: TimeInt, Rhs: FixedPoint> core::ops::Add<Rhs> for Hertz<T> {
    type Output = Self;

    /// Returns the sum as the LHS type
    fn add(self, rhs: Rhs) -> (r: Self) {
        let r = FixedPointOps::add(self, rhs);
        proof {
            let v = self.0.spec_value() + spec_convert::<Rhs, Self>(rhs)->Ok_0;
            T::lemma_from_nat(v);
            T::lemma_range(r.0, T::spec_from_nat(v));
        }
        r
    }
}

impl<T: TimeInt, Rhs: FixedPoint> AddSpecImpl<Rhs> for Hertz<T> {
    open spec fn obeys_add_spec() -> bool {
        true
    }

    open spec fn add_req(self, rhs: Rhs) -> bool {
        &&& spec_convert::<Rhs, Self>(rhs) is Ok
        &&& self.0.spec_value() + spec_convert::<Rhs, Self>(rhs)->Ok_0 <= T::spec_max()
    }

    open spec fn add_spec(self, rhs: Rhs) -> Self {
        Hertz(T::spec_from_nat(self.0.spec_value() + spec_convert::<Rhs, Self>(rhs)->Ok_0))
    }
}

impl<T: TimeInt, Rhs: FixedPoint> core::ops::Sub<Rhs> for Hertz<T> {
    type Output = Self;

    /// Returns the difference as the LHS type
    fn sub(self, rhs: Rhs) -> (r: Self) {
        let r = FixedPointOps::sub(self, rhs);
        proof {
            let v = (self.0.spec_value() - spec_convert::<Rhs, Self>(rhs)->Ok_0) as nat;
            T::lemma_range(self.0, self.0);
            T::lemma_from_nat(v);
            T::lemma_range(r.0, T::spec_from_nat(v));
        }
        r
    }
}

impl<T: TimeInt, Rhs: FixedPoint> SubSpecImpl<Rhs> for Hertz<T> {
    open spec fn obeys_sub_spec() -> bool {
        true
    }

    open spec fn sub_req(self, rhs: Rhs) -> bool {
        &&& spec_convert::<Rhs, Self>(rhs) is Ok
        &&& self.0.spec_value() >= spec_convert::<Rhs, Self>(rhs)->Ok_0
    }

    open spec fn sub_spec(self, rhs: Rhs) -> Self {
        Hertz(T::spec_from_nat((self.0.spec_value() - spec_convert::<Rhs, Self>(rhs)->Ok_0) as nat))
    }
}

impl<T: TimeInt, Rhs: FixedPoint> core::ops::Rem<Rhs> for Hertz<T> {
    type Output = Self;

    /// Returns the remainder as the LHS type
    fn rem(self, rhs: Rhs) -> (r: Self) {
        let r = FixedPointOps::rem(self, rhs);
        proof {
            if spec_convert::<Rhs, Self>(rhs) is Ok {
                let v = spec_convert::<Rhs, Self>(rhs)->Ok_0;
                let m: nat = if v > 0 {
                    self.0.spec_value() % v
                } else {
                    0
                };
                T::lemma_range(self.0, self.0);
                T::lemma_from_nat(m);
                T::lemma_range(r.0, T::spec_from_nat(m));
            }
        }
        r
    }
}

impl<T: TimeInt, Rhs: FixedPoint> RemSpecImpl<Rhs> for Hertz<T> {
    open spec fn obeys_rem_spec() -> bool {
        true
    }

    open spec fn rem_req(self, rhs: Rhs) -> bool {
        true
    }

    open spec fn rem_spec(self, rhs: Rhs) -> Self {
        match spec_convert::<Rhs, Self>(rhs) {
            Ok(v) => Hertz(
                T::spec_from_nat(
                    if v > 0 {
                        self.0.spec_value() % v
                    } else {
                        0
                    },
                ),
            ),
            Err(_) => self,
        }
    }
}

impl<SourceInt: TimeInt, DestInt: TimeInt> TryFrom<Generic<SourceInt>> for Hertz<DestInt> {
    type Error = ConversionError;

    /// Construct this unit from a `Generic` value (a scaling factor with a zero denominator is
    /// reported as [`ConversionError::DivByZero`])
    fn try_from(generic: Generic<SourceInt>) -> (r: Result<Self, ConversionError>) {
        if *generic.scaling_factor().denominator() == 0 {
            Err(ConversionError::DivByZero)
        } else {
            let r = Self::try_from_generic(generic);
            proof {
                if r is Ok {
                    DestInt::lemma_range(r->Ok_0.0, r->Ok_0.0);
                    DestInt::lemma_from_nat(r->Ok_0.0.spec_value());
                    DestInt::lemma_range(r->Ok_0.0, DestInt::spec_from_nat(r->Ok_0.0.spec_value()));
                }
            }
            r
        }
    }
}

impl<SourceInt: TimeInt, DestInt: TimeInt> TryFromSpecImpl<Generic<SourceInt>> for Hertz<DestInt> {
    open spec fn obeys_try_from_spec() -> bool {
        true
    }

    open spec fn try_from_spec(generic: Generic<SourceInt>) -> Result<Self, ConversionError> {
        if generic.spec_scaling_factor().spec_denom() == 0 {
            Err(ConversionError::DivByZero)
        } else {
            match spec_from_ticks(
                generic.spec_integer().spec_value(),
                SourceInt::spec_max(),
                generic.spec_scaling_factor(),
                DestInt::spec_max(),
                Fraction::spec_new(1, 1),
            ) {
                Ok(v) => Ok(Hertz(DestInt::spec_from_nat(v))),
                Err(e) => Err(e),
            }
        }
    }
}

impl<T: TimeInt> From<Hertz<T>> for Generic<T> {
    /// The `Generic` `Rate` of the same integer and scaling factor
    fn from(rate: Hertz<T>) -> (r: Self) {
        Self::new(rate.0, Fraction::new(1, 1))
    }
}

impl<T: TimeInt> FromSpecImpl<Hertz<T>> for Generic<T> {
    open spec fn obeys_from_spec() -> bool {
        true
    }

    open spec fn from_spec(rate: Hertz<T>) -> Self {
        Generic::spec_new(rate.0, Fraction::spec_new(1, 1))
    }
}

/// A rate unit type: Bytes/s × 1,048,576
#[derive(Clone, Copy, Debug, Eq)]
pub struct MebibytesPerSecond<T: TimeInt = u32>(pub T);

impl<T: TimeInt> MebibytesPerSecond<T> {
    /// Construct a new value of this unit
    pub fn new(value: T) -> (r: Self)
        ensures
            r.0 == value,
    {
        Self(value)
    }

    /// Construct this unit from a `Generic` value of any scaling factor (with a positive
    /// denominator)
    ///
    /// # Errors
    ///
    /// As [`from_ticks`]
    pub fn try_from_generic<SourceInt: TimeInt>(generic: Generic<SourceInt>) -> (r: Result<
        Self,
        ConversionError,
    >)
        requires
            generic.spec_scaling_factor().spec_denom() > 0,
        ensures
            match spec_from_ticks(
                generic.spec_integer().spec_value(),
                SourceInt::spec_max(),
                generic.spec_scaling_factor(),
                T::spec_max(),
                Self::spec_scaling_factor(),
            ) {
                Ok(v) => r matches Ok(d) && d.0.spec_value() == v,
                Err(e) => r == Err::<Self, ConversionError>(e),
            },
    {
        from_ticks(*generic.integer(), *generic.scaling_factor())
    }
}

impl<T: TimeInt> Rate for MebibytesPerSecond<T> {

}

impl<T: TimeInt> FixedPoint for MebibytesPerSecond<T> {
    type T = T;

    open spec fn spec_scaling_factor() -> Fraction {
        Fraction::spec_new(1048576, 1)
    }

    proof fn lemma_scaling_factor() {
        Fraction::lemma_spec_new(1048576, 1);
    }

    fn scaling_factor() -> (r: Fraction) {
        Fraction::new(1048576, 1)
    }

    open spec fn spec_integer(self) -> T {
        self.0
    }

    fn new(value: T) -> (r: Self) {
        Self(value)
    }

    fn integer(&self) -> (r: &T) {
        &self.0
    }
}

impl<T: TimeInt, Rhs: FixedPoint> PartialEq<Rhs> for MebibytesPerSecond<T> {
    fn eq(&self, rhs: &Rhs) -> (r: bool) {
        FixedPointOps::eq(self, rhs)
    }
}

impl<T: TimeInt, Rhs: FixedPoint> PartialEqSpecImpl<Rhs> for MebibytesPerSecond<T> {
    open spec fn obeys_eq_spec() -> bool {
        true
    }

    open spec fn eq_spec(&self, rhs: &Rhs) -> bool {
        spec_fixed_eq(*self, *rhs)
    }
}

impl<T: TimeInt, Rhs: FixedPoint> PartialOrd<Rhs> for MebibytesPerSecond<T> {
    fn partial_cmp(&self, rhs: &Rhs) -> (r: Option<Ordering>) {
        FixedPointOps::partial_cmp(self, rhs)
    }
}

impl<T: TimeInt, Rhs: FixedPoint> PartialOrdSpecImpl<Rhs> for MebibytesPerSecond<T> {
    open spec fn obeys_partial_cmp_spec() -> bool {
        true
    }

    open spec fn partial_cmp_spec(&self, rhs: &Rhs) -> Option<Ordering> {
        Some(fixed_order(*self, *rhs))
    }
}

impl<T: TimeInt, Rhs: FixedPoint> core::ops::Add<Rhs> for MebibytesPerSecond<T> {
    type Output = Self;

    /// Returns the sum as the LHS type
    fn add(self, rhs: Rhs) -> (r: Self) {
        let r = FixedPointOps::add(self, rhs);
        proof {
            let v = self.0.spec_value() + spec_convert::<Rhs, Self>(rhs)->Ok_0;
            T::lemma_from_nat(v);
            T::lemma_range(r.0, T::spec_from_nat(v));
        }
        r
    }
}

impl<T: TimeInt, Rhs: FixedPoint> AddSpecImpl<Rhs> for MebibytesPerSecond<T> {
    open spec fn obeys_add_spec() -> bool {
        true
    }

    open spec fn add_req(self, rhs: Rhs) -> bool {
        &&& spec_convert::<Rhs, Self>(rhs) is Ok
        &&& self.0.spec_value() + spec_convert::<Rhs, Self>(rhs)->Ok_0 <= T::spec_max()
    }

    open spec fn add_spec(self, rhs: Rhs) -> Self {
        MebibytesPerSecond(T::spec_from_nat(self.0.spec_value() + spec_convert::<Rhs, Self>(rhs)->Ok_0))
    }
}

impl<T: TimeInt, Rhs: FixedPoint> core::ops::Sub<Rhs> for MebibytesPerSecond<T> {
    type Output = Self;

    /// Returns the difference as the LHS type
    fn sub(self, rhs: Rhs) -> (r: Self) {
        let r = FixedPointOps::sub(self, rhs);
        proof {
            let v = (self.0.spec_value() - spec_convert::<Rhs, Self>(rhs)->Ok_0) as nat;
            T::lemma_range(self.0, self.0);
            T::lemma_from_nat(v);
            T::lemma_range(r.0, T::spec_from_nat(v));
        }
        r
    }
}

impl<T: TimeInt, Rhs: FixedPoint> SubSpecImpl<Rhs> for MebibytesPerSecond<T> {
    open spec fn obeys_sub_spec() -> bool {
        true
    }

    open spec fn sub_req(self, rhs: Rhs) -> bool {
        &&& spec_convert::<Rhs, Self>(rhs) is Ok
        &&& self.0.spec_value() >= spec_convert::<Rhs, Self>(rhs)->Ok_0
    }

    open spec fn sub_spec(self, rhs: Rhs) -> Self {
        MebibytesPerSecond(T::spec_from_nat((self.0.spec_value() - spec_convert::<Rhs, Self>(rhs)->Ok_0) as nat))
    }
}

impl<T: TimeInt, Rhs: FixedPoint> core::ops::Rem<Rhs> for MebibytesPerSecond<T> {
    type Output = Self;

    /// Returns the remainder as the LHS type
    fn rem(self, rhs: Rhs) -> (r: Self) {
        let r = FixedPointOps::rem(self, rhs);
        proof {
            if spec_convert::<Rhs, Self>(rhs) is Ok {
                let v = spec_convert::<Rhs, Self>(rhs)->Ok_0;
                let m: nat = if v > 0 {
                    self.0.spec_value() % v
                } else {
                    0
                };
                T::lemma_range(self.0, self.0);
                T::lemma_from_nat(m);
                T::lemma_range(r.0, T::spec_from_nat(m));
            }
        }
        r
    }
}

impl<T: TimeInt, Rhs: FixedPoint> RemSpecImpl<Rhs> for MebibytesPerSecond<T> {
    open spec fn obeys_rem_spec() -> bool {
        true
    }

    open spec fn rem_req(self, rhs: Rhs) -> bool {
        true
    }

    open spec fn rem_spec(self, rhs: Rhs) -> Self {
        match spec_convert::<Rhs, Self>(rhs) {
            Ok(v) => MebibytesPerSecond(
                T::spec_from_nat(
                    if v > 0 {
                        self.0.spec_value() % v
                    } else {
                        0
                    },
                ),
            ),
            Err(_) => self,
        }
    }
}

impl<SourceInt: TimeInt, DestInt: TimeInt> TryFrom<Generic<SourceInt>> for MebibytesPerSecond<DestInt> {
    type Error = ConversionError;

    /// Construct this unit from a `Generic` value (a scaling factor with a zero denominator is
    /// reported as [`ConversionError::DivByZero`])
    fn try_from(generic: Generic<SourceInt>) -> (r: Result<Self, ConversionError>) {
        if *generic.scaling_factor().denominator() == 0 {
            Err(ConversionError::DivByZero)
        } else {
            let r = Self::try_from_generic(generic);
            proof {
                if r is Ok {
                    DestInt::lemma_range(r->Ok_0.0, r->Ok_0.0);
                    DestInt::lemma_from_nat(r->Ok_0.0.spec_value());
                    DestInt::lemma_range(r->Ok_0.0, DestInt::spec_from_nat(r->Ok_0.0.spec_value()));
                }
            }
            r
        }
    }
}

impl<SourceInt: TimeInt, DestInt: TimeInt> TryFromSpecImpl<Generic<SourceInt>> for MebibytesPerSecond<DestInt> {
    open spec fn obeys_try_from_spec() -> bool {
        true
    }

    open spec fn try_from_spec(generic: Generic<SourceInt>) -> Result<Self, ConversionError> {
        if generic.spec_scaling_factor().spec_denom() == 0 {
            Err(ConversionError::DivByZero)
        } else {
            match spec_from_ticks(
                generic.spec_integer().spec_value(),
                SourceInt::spec_max(),
                generic.spec_scaling_factor(),
                DestInt::spec_max(),
                Fraction::spec_new(1048576, 1),
            ) {
                Ok(v) => Ok(MebibytesPerSecond(DestInt::spec_from_nat(v))),
                Err(e) => Err(e),
            }
        }
    }
}

impl<T: TimeInt> From<MebibytesPerSecond<T>> for Generic<T> {
    /// The `Generic` `Rate` of the same integer and scaling factor
    fn from(rate: MebibytesPerSecond<T>) -> (r: Self) {
        Self::new(rate.0, Fraction::new(1048576, 1))
    }
}

impl<T: TimeInt> FromSpecImpl<MebibytesPerSecond<T>> for Generic<T> {
    open spec fn obeys_from_spec() -> bool {
        true
    }

    open spec fn from_spec(rate: MebibytesPerSecond<T>) -> Self {
        Generic::spec_new(rate.0, Fraction::spec_new(1048576, 1))
    }
}

/// A rate unit type: Bytes/s × 1,000,000
#[derive(Clone, Copy, Debug, Eq)]
pub struct MegabytesPerSecond<T: TimeInt = u32>(pub T);

impl<T: TimeInt> MegabytesPerSecond<T> {
    /// Construct a new value of this unit
    pub fn new(value: T) -> (r: Self)
        ensures
            r.0 == value,
    {
        Self(value)
    }

    /// Construct this unit from a `Generic` value of any scaling factor (with a positive
    /// denominator)
    ///
    /// # Errors
    ///
    /// As [`from_ticks`]
    pub fn try_from_generic<SourceInt: TimeInt>(generic: Generic<SourceInt>) -> (r: Result<
        Self,
        ConversionError,
    >)
        requires
            generic.spec_scaling_factor().spec_denom() > 0,
        ensures
            match spec_from_ticks(
                generic.spec_integer().spec_value(),
                SourceInt::spec_max(),
                generic.spec_scaling_factor(),
                T::spec_max(),
                Self::spec_scaling_factor(),
            ) {
                Ok(v) => r matches Ok(d) && d.0.spec_value() == v,
                Err(e) => r == Err::<Self, ConversionError>(e),
            },
    {
        from_ticks(*generic.integer(), *generic.scaling_factor())
    }
}

impl<T: TimeInt> Rate for MegabytesPerSecond<T> {

}

impl<T: TimeInt> FixedPoint for MegabytesPerSecond<T> {
    type T = T;

    open spec fn spec_scaling_factor() -> Fraction {
        Fraction::spec_new(1000000, 1)
    }

    proof fn lemma_scaling_factor() {
        Fraction::lemma_spec_new(1000000, 1);
    }

    fn scaling_factor() -> (r: Fraction) {
        Fraction::new(1000000, 1)
    }

    open spec fn spec_integer(self) -> T {
        self.0
    }

    fn new(value: T) -> (r: Self) {
        Self(value)
    }

    fn integer(&self) -> (r: &T) {
        &self.0
    }
}

impl<T: TimeInt, Rhs: FixedPoint> PartialEq<Rhs> for MegabytesPerSecond<T> {
    fn eq(&self, rhs: &Rhs) -> (r: bool) {
        FixedPointOps::eq(self, rhs)
    }
}

impl<T: TimeInt, Rhs: FixedPoint> PartialEqSpecImpl<Rhs> for MegabytesPerSecond<T> {
    open spec fn obeys_eq_spec() -> bool {
        true
    }

    open spec fn eq_spec(&self, rhs: &Rhs) -> bool {
        spec_fixed_eq(*self, *rhs)
    }
}

impl<T: TimeInt, Rhs: FixedPoint> PartialOrd<Rhs> for MegabytesPerSecond<T> {
    fn partial_cmp(&self, rhs: &Rhs) -> (r: Option<Ordering>) {
        FixedPointOps::partial_cmp(self, rhs)
    }
}

impl<T: TimeInt, Rhs: FixedPoint> PartialOrdSpecImpl<Rhs> for MegabytesPerSecond<T> {
    open spec fn obeys_partial_cmp_spec() -> bool {
        true
    }

    open spec fn partial_cmp_spec(&self, rhs: &Rhs) -> Option<Ordering> {
        Some(fixed_order(*self, *rhs))
    }
}

impl<T: TimeInt, Rhs: FixedPoint> core::ops::Add<Rhs> for MegabytesPerSecond<T> {
    type Output = Self;

    /// Returns the sum as the LHS type
    fn add(self, rhs: Rhs) -> (r: Self) {
        let r = FixedPointOps::add(self, rhs);
        proof {
            let v = self.0.spec_value() + spec_convert::<Rhs, Self>(rhs)->Ok_0;
            T::lemma_from_nat(v);
            T::lemma_range(r.0, T::spec_from_nat(v));
        }
        r
    }
}

impl<T: TimeInt, Rhs: FixedPoint> AddSpecImpl<Rhs> for MegabytesPerSecond<T> {
    open spec fn obeys_add_spec() -> bool {
        true
    }

    open spec fn add_req(self, rhs: Rhs) -> bool {
        &&& spec_convert::<Rhs, Self>(rhs) is Ok
        &&& self.0.spec_value() + spec_convert::<Rhs, Self>(rhs)->Ok_0 <= T::spec_max()
    }

    open spec fn add_spec(self, rhs: Rhs) -> Self {
        MegabytesPerSecond(T::spec_from_nat(self.0.spec_value() + spec_convert::<Rhs, Self>(rhs)->Ok_0))
    }
}

impl<T: TimeInt, Rhs: FixedPoint> core::ops::Sub<Rhs> for MegabytesPerSecond<T> {
    type Output = Self;

    /// Returns the difference as the LHS type
    fn sub(self, rhs: Rhs) -> (r: Self) {
        let r = FixedPointOps::sub(self, rhs);
        proof {
            let v = (self.0.spec_value() - spec_convert::<Rhs, Self>(rhs)->Ok_0) as nat;
            T::lemma_range(self.0, self.0);
            T::lemma_from_nat(v);
            T::lemma_range(r.0, T::spec_from_nat(v));
        }
        r
    }
}

impl<T: TimeInt, Rhs: FixedPoint> SubSpecImpl<Rhs> for MegabytesPerSecond<T> {
    open spec fn obeys_sub_spec() -> bool {
        true
    }

    open spec fn sub_req(self, rhs: Rhs) -> bool {
        &&& spec_convert::<Rhs, Self>(rhs) is Ok
        &&& self.0.spec_value() >= spec_convert::<Rhs, Self>(rhs)->Ok_0
    }

    open spec fn sub_spec(self, rhs: Rhs) -> Self {
        MegabytesPerSecond(T::spec_from_nat((self.0.spec_value() - spec_convert::<Rhs, Self>(rhs)->Ok_0) as nat))
    }
}

impl<T: TimeInt, Rhs: FixedPoint> core::ops::Rem<Rhs> for MegabytesPerSecond<T> {
    type Output = Self;

    /// Returns the remainder as the LHS type
    fn rem(self, rhs: Rhs) -> (r: Self) {
        let r = FixedPointOps::rem(self, rhs);
        proof {
            if spec_convert::<Rhs, Self>(rhs) is Ok {
                let v = spec_convert::<Rhs, Self>(rhs)->Ok_0;
                let m: nat = if v > 0 {
                    self.0.spec_value() % v
                } else {
                    0
                };
                T::lemma_range(self.0, self.0);
                T::lemma_from_nat(m);
                T::lemma_range(r.0, T::spec_from_nat(m));
            }
        }
        r
    }
}

impl<T: TimeInt, Rhs: FixedPoint> RemSpecImpl<Rhs> for MegabytesPerSecond<T> {
    open spec fn obeys_rem_spec() -> bool {
        true
    }

    open spec fn rem_req(self, rhs: Rhs) -> bool {
        true
    }

    open spec fn rem_spec(self, rhs: Rhs) -> Self {
        match spec_convert::<Rhs, Self>(rhs) {
            Ok(v) => MegabytesPerSecond(
                T::spec_from_nat(
                    if v > 0 {
                        self.0.spec_value() % v
                    } else {
                        0
                    },
                ),
            ),
            Err(_) => self,
        }
    }
}

impl<SourceInt: TimeInt, DestInt: TimeInt> TryFrom<Generic<SourceInt>> for MegabytesPerSecond<DestInt> {
    type Error = ConversionError;

    /// Construct this unit from a `Generic` value (a scaling factor with a zero denominator is
    /// reported as [`ConversionError::DivByZero`])
    fn try_from(generic: Generic<SourceInt>) -> (r: Result<Self, ConversionError>) {
        if *generic.scaling_factor().denominator() == 0 {
            Err(ConversionError::DivByZero)
        } else {
            let r = Self::try_from_generic(generic);
            proof {
                if r is Ok {
                    DestInt::lemma_range(r->Ok_0.0, r->Ok_0.0);
                    DestInt::lemma_from_nat(r->Ok_0.0.spec_value());
                    DestInt::lemma_range(r->Ok_0.0, DestInt::spec_from_nat(r->Ok_0.0.spec_value()));
                }
            }
            r
        }
    }
}

impl<SourceInt: TimeInt, DestInt: TimeInt> TryFromSpecImpl<Generic<SourceInt>> for MegabytesPerSecond<DestInt> {
    open spec fn obeys_try_from_spec() -> bool {
        true
    }

    open spec fn try_from_spec(generic: Generic<SourceInt>) -> Result<Self, ConversionError> {
        if generic.spec_scaling_factor().spec_denom() == 0 {
            Err(ConversionError::DivByZero)
        } else {
            match spec_from_ticks(
                generic.spec_integer().spec_value(),
                SourceInt::spec_max(),
                generic.spec_scaling_factor(),
                DestInt::spec_max(),
                Fraction::spec_new(1000000, 1),
            ) {
                Ok(v) => Ok(MegabytesPerSecond(DestInt::spec_from_nat(v))),
                Err(e) => Err(e),
            }
        }
    }
}

impl<T: TimeInt> From<MegabytesPerSecond<T>> for Generic<T> {
    /// The `Generic` `Rate` of the same integer and scaling factor
    fn from(rate: MegabytesPerSecond<T>) -> (r: Self) {
        Self::new(rate.0, Fraction::new(1000000, 1))
    }
}

impl<T: TimeInt> FromSpecImpl<MegabytesPerSecond<T>> for Generic<T> {
    open spec fn obeys_from_spec() -> bool {
        true
    }

    open spec fn from_spec(rate: MegabytesPerSecond<T>) -> Self {
        Generic::spec_new(rate.0, Fraction::spec_new(1000000, 1))
    }
}

/// A rate unit type: Bytes/s × 1,024
#[derive(Clone, Copy, Debug, Eq)]
pub struct KibibytesPerSecond<T: TimeInt = u32>(pub T);

impl<T: TimeInt> KibibytesPerSecond<T> {
    /// Construct a new value of this unit
    pub fn new(value: T) -> (r: Self)
        ensures
            r.0 == value,
    {
        Self(value)
    }

    /// Construct this unit from a `Generic` value of any scaling factor (with a positive
    /// denominator)
    ///
    /// # Errors
    ///
    /// As [`from_ticks`]
    pub fn try_from_generic<SourceInt: TimeInt>(generic: Generic<SourceInt>) -> (r: Result<
        Self,
        ConversionError,
    >)
        requires
            generic.spec_scaling_factor().spec_denom() > 0,
        ensures
            match spec_from_ticks(
                generic.spec_integer().spec_value(),
                SourceInt::spec_max(),
                generic.spec_scaling_factor(),
                T::spec_max(),
                Self::spec_scaling_factor(),
            ) {
                Ok(v) => r matches Ok(d) && d.0.spec_value() == v,
                Err(e) => r == Err::<Self, ConversionError>(e),
            },
    {
        from_ticks(*generic.integer(), *generic.scaling_factor())
    }
}

impl<T: TimeInt> Rate for KibibytesPerSecond<T> {

}

impl<T: TimeInt> FixedPoint for KibibytesPerSecond<T> {
    type T = T;

    open spec fn spec_scaling_factor() -> Fraction {
        Fraction::spec_new(1024, 1)
    }

    proof fn lemma_scaling_factor() {
        Fraction::lemma_spec_new(1024, 1);
    }

    fn scaling_factor() -> (r: Fraction) {
        Fraction::new(1024, 1)
    }

    open spec fn spec_integer(self) -> T {
        self.0
    }

    fn new(value: T) -> (r: Self) {
        Self(value)
    }

    fn integer(&self) -> (r: &T) {
        &self.0
    }
}

impl<T: TimeInt, Rhs: FixedPoint> PartialEq<Rhs> for KibibytesPerSecond<T> {
    fn eq(&self, rhs: &Rhs) -> (r: bool) {
        FixedPointOps::eq(self, rhs)
    }
}

impl<T: TimeInt, Rhs: FixedPoint> PartialEqSpecImpl<Rhs> for KibibytesPerSecond<T> {
    open spec fn obeys_eq_spec() -> bool {
        true
    }

    open spec fn eq_spec(&self, rhs: &Rhs) -> bool {
        spec_fixed_eq(*self, *rhs)
    }
}

impl<T: TimeInt, Rhs: FixedPoint> PartialOrd<Rhs> for KibibytesPerSecond<T> {
    fn partial_cmp(&self, rhs: &Rhs) -> (r: Option<Ordering>) {
        FixedPointOps::partial_cmp(self, rhs)
    }
}

impl<T: TimeInt, Rhs: FixedPoint> PartialOrdSpecImpl<Rhs> for KibibytesPerSecond<T> {
    open spec fn obeys_partial_cmp_spec() -> bool {
        true
    }

    open spec fn partial_cmp_spec(&self, rhs: &Rhs) -> Option<Ordering> {
        Some(fixed_order(*self, *rhs))
    }
}

impl<T: TimeInt, Rhs: FixedPoint> core::ops::Add<Rhs> for KibibytesPerSecond<T> {
    type Output = Self;

    /// Returns the sum as the LHS type
    fn add(self, rhs: Rhs) -> (r: Self) {
        let r = FixedPointOps::add(self, rhs);
        proof {
            let v = self.0.spec_value() + spec_convert::<Rhs, Self>(rhs)->Ok_0;
            T::lemma_from_nat(v);
            T::lemma_range(r.0, T::spec_from_nat(v));
        }
        r
    }
}

impl<T: TimeInt, Rhs: FixedPoint> AddSpecImpl<Rhs> for KibibytesPerSecond<T> {
    open spec fn obeys_add_spec() -> bool {
        true
    }

    open spec fn add_req(self, rhs: Rhs) -> bool {
        &&& spec_convert::<Rhs, Self>(rhs) is Ok
        &&& self.0.spec_value() + spec_convert::<Rhs, Self>(rhs)->Ok_0 <= T::spec_max()
    }

    open spec fn add_spec(self, rhs: Rhs) -> Self {
        KibibytesPerSecond(T::spec_from_nat(self.0.spec_value() + spec_convert::<Rhs, Self>(rhs)->Ok_0))
    }
}

impl<T: TimeInt, Rhs: FixedPoint> core::ops::Sub<Rhs> for KibibytesPerSecond<T> {
    type Output = Self;

    /// Returns the difference as the LHS type
    fn sub(self, rhs: Rhs) -> (r: Self) {
        let r = FixedPointOps::sub(self, rhs);
        proof {
            let v = (self.0.spec_value() - spec_convert::<Rhs, Self>(rhs)->Ok_0) as nat;
            T::lemma_range(self.0, self.0);
            T::lemma_from_nat(v);
            T::lemma_range(r.0, T::spec_from_nat(v));
        }
        r
    }
}

impl<T: TimeInt, Rhs: FixedPoint> SubSpecImpl<Rhs> for KibibytesPerSecond<T> {
    open spec fn obeys_sub_spec() -> bool {
        true
    }

    open spec fn sub_req(self, rhs: Rhs) -> bool {
        &&& spec_convert::<Rhs, Self>(rhs) is Ok
        &&& self.0.spec_value() >= spec_convert::<Rhs, Self>(rhs)->Ok_0
    }

    open spec fn sub_spec(self, rhs: Rhs) -> Self {
        KibibytesPerSecond(T::spec_from_nat((self.0.spec_value() - spec_convert::<Rhs, Self>(rhs)->Ok_0) as nat))
    }
}

impl<T: TimeInt, Rhs: FixedPoint> core::ops::Rem<Rhs> for KibibytesPerSecond<T> {
    type Output = Self;

    /// Returns the remainder as the LHS type
    fn rem(self, rhs: Rhs) -> (r: Self) {
        let r = FixedPointOps::rem(self, rhs);
        proof {
            if spec_convert::<Rhs, Self>(rhs) is Ok {
                let v = spec_convert::<Rhs, Self>(rhs)->Ok_0;
                let m: nat = if v > 0 {
                    self.0.spec_value() % v
                } else {
                    0
                };
                T::lemma_range(self.0, self.0);
                T::lemma_from_nat(m);
                T::lemma_range(r.0, T::spec_from_nat(m));
            }
        }
        r
    }
}

impl<T: TimeInt, Rhs: FixedPoint> RemSpecImpl<Rhs> for KibibytesPerSecond<T> {
    open spec fn obeys_rem_spec() -> bool {
        true
    }

    open spec fn rem_req(self, rhs: Rhs) -> bool {
        true
    }

    open spec fn rem_spec(self, rhs: Rhs) -> Self {
        match spec_convert::<Rhs, Self>(rhs) {
            Ok(v) => KibibytesPerSecond(
                T::spec_from_nat(
                    if v > 0 {
                        self.0.spec_value() % v
                    } else {
                        0
                    },
                ),
            ),
            Err(_) => self,
        }
    }
}

impl<SourceInt: TimeInt, DestInt: TimeInt> TryFrom<Generic<SourceInt>> for KibibytesPerSecond<DestInt> {
    type Error = ConversionError;

    /// Construct this unit from a `Generic` value (a scaling factor with a zero denominator is
    /// reported as [`ConversionError::DivByZero`])
    fn try_from(generic: Generic<SourceInt>) -> (r: Result<Self, ConversionError>) {
        if *generic.scaling_factor().denominator() == 0 {
            Err(ConversionError::DivByZero)
        } else {
            let r = Self::try_from_generic(generic);
            proof {
                if r is Ok {
                    DestInt::lemma_range(r->Ok_0.0, r->Ok_0.0);
                    DestInt::lemma_from_nat(r->Ok_0.0.spec_value());
                    DestInt::lemma_range(r->Ok_0.0, DestInt::spec_from_nat(r->Ok_0.0.spec_value()));
                }
            }
            r
        }
    }
}

impl<SourceInt: TimeInt, DestInt: TimeInt> TryFromSpecImpl<Generic<SourceInt>> for KibibytesPerSecond<DestInt> {
    open spec fn obeys_try_from_spec() -> bool {
        true
    }

    open spec fn try_from_spec(generic: Generic<SourceInt>) -> Result<Self, ConversionError> {
        if generic.spec_scaling_factor().spec_denom() == 0 {
            Err(ConversionError::DivByZero)
        } else {
            match spec_from_ticks(
                generic.spec_integer().spec_value(),
                SourceInt::spec_max(),
                generic.spec_scaling_factor(),
                DestInt::spec_max(),
                Fraction::spec_new(1024, 1),
            ) {
                Ok(v) => Ok(KibibytesPerSecond(DestInt::spec_from_nat(v))),
                Err(e) => Err(e),
            }
        }
    }
}

impl<T: TimeInt> From<KibibytesPerSecond<T>> for Generic<T> {
    /// The `Generic` `Rate` of the same integer and scaling factor
    fn from(rate: KibibytesPerSecond<T>) -> (r: Self) {
        Self::new(rate.0, Fraction::new(1024, 1))
    }
}

impl<T: TimeInt> FromSpecImpl<KibibytesPerSecond<T>> for Generic<T> {
    open spec fn obeys_from_spec() -> bool {
        true
    }

    open spec fn from_spec(rate: KibibytesPerSecond<T>) -> Self {
        Generic::spec_new(rate.0, Fraction::spec_new(1024, 1))
    }
}

/// A rate unit type: Bytes/s × 1,000
#[derive(Clone, Copy, Debug, Eq)]
pub struct KiloBytesPerSecond<T: TimeInt = u32>(pub T);

impl<T: TimeInt> KiloBytesPerSecond<T> {
    /// Construct a new value of this unit
    pub fn new(value: T) -> (r: Self)
        ensures
            r.0 == value,
    {
        Self(value)
    }

    /// Construct this unit from a `Generic` value of any scaling factor (with a positive
    /// denominator)
    ///
    /// # Errors
    ///
    /// As [`from_ticks`]
    pub fn try_from_generic<SourceInt: TimeInt>(generic: Generic<SourceInt>) -> (r: Result<
        Self,
        ConversionError,
    >)
        requires
            generic.spec_scaling_factor().spec_denom() > 0,
        ensures
            match spec_from_ticks(
                generic.spec_integer().spec_value(),
                SourceInt::spec_max(),
                generic.spec_scaling_factor(),
                T::spec_max(),
                Self::spec_scaling_factor(),
            ) {
                Ok(v) => r matches Ok(d) && d.0.spec_value() == v,
                Err(e) => r == Err::<Self, ConversionError>(e),
            },
    {
        from_ticks(*generic.integer(), *generic.scaling_factor())
    }
}

impl<T: TimeInt> Rate for KiloBytesPerSecond<T> {

}

impl<T: TimeInt> FixedPoint for KiloBytesPerSecond<T> {
    type T = T;

    open spec fn spec_scaling_factor() -> Fraction {
        Fraction::spec_new(1000, 1)
    }

    proof fn lemma_scaling_factor() {
        Fraction::lemma_spec_new(1000, 1);
    }

    fn scaling_factor() -> (r: Fraction) {
        Fraction::new(1000, 1)
    }

    open spec fn spec_integer(self) -> T {
        self.0
    }

    fn new(value: T) -> (r: Self) {
        Self(value)
    }

    fn integer(&self) -> (r: &T) {
        &self.0
    }
}

impl<T: TimeInt, Rhs: FixedPoint> PartialEq<Rhs> for KiloBytesPerSecond<T> {
    fn eq(&self, rhs: &Rhs) -> (r: bool) {
        FixedPointOps::eq(self, rhs)
    }
}

impl<T: TimeInt, Rhs: FixedPoint> PartialEqSpecImpl<Rhs> for KiloBytesPerSecond<T> {
    open spec fn obeys_eq_spec() -> bool {
        true
    }

    open spec fn eq_spec(&self, rhs: &Rhs) -> bool {
        spec_fixed_eq(*self, *rhs)
    }
}

impl<T: TimeInt, Rhs: FixedPoint> PartialOrd<Rhs> for KiloBytesPerSecond<T> {
    fn partial_cmp(&self, rhs: &Rhs) -> (r: Option<Ordering>) {
        FixedPointOps::partial_cmp(self, rhs)
    }
}

impl<T: TimeInt, Rhs: FixedPoint> PartialOrdSpecImpl<Rhs> for KiloBytesPerSecond<T> {
    open spec fn obeys_partial_cmp_spec() -> bool {
        true
    }

    open spec fn partial_cmp_spec(&self, rhs: &Rhs) -> Option<Ordering> {
        Some(fixed_order(*self, *rhs))
    }
}

impl<T: TimeInt, Rhs: FixedPoint> core::ops::Add<Rhs> for KiloBytesPerSecond<T> {
    type Output = Self;

    /// Returns the sum as the LHS type
    fn add(self, rhs: Rhs) -> (r: Self) {
        let r = FixedPointOps::add(self, rhs);
        proof {
            let v = self.0.spec_value() + spec_convert::<Rhs, Self>(rhs)->Ok_0;
            T::lemma_from_nat(v);
            T::lemma_range(r.0, T::spec_from_nat(v));
        }
        r
    }
}

impl<T: TimeInt, Rhs: FixedPoint> AddSpecImpl<Rhs> for KiloBytesPerSecond<T> {
    open spec fn obeys_add_spec() -> bool {
        true
    }

    open spec fn add_req(self, rhs: Rhs) -> bool {
        &&& spec_convert::<Rhs, Self>(rhs) is Ok
        &&& self.0.spec_value() + spec_convert::<Rhs, Self>(rhs)->Ok_0 <= T::spec_max()
    }

    open spec fn add_spec(self, rhs: Rhs) -> Self {
        KiloBytesPerSecond(T::spec_from_nat(self.0.spec_value() + spec_convert::<Rhs, Self>(rhs)->Ok_0))
    }
}

impl<T: TimeInt, Rhs: FixedPoint> core::ops::Sub<Rhs> for KiloBytesPerSecond<T> {
    type Output = Self;

    /// Returns the difference as the LHS type
    fn sub(self, rhs: Rhs) -> (r: Self) {
        let r = FixedPointOps::sub(self, rhs);
        proof {
            let v = (self.0.spec_value() - spec_convert::<Rhs, Self>(rhs)->Ok_0) as nat;
            T::lemma_range(self.0, self.0);
            T::lemma_from_nat(v);
            T::lemma_range(r.0, T::spec_from_nat(v));
        }
        r
    }
}

impl<T: TimeInt, Rhs: FixedPoint> SubSpecImpl<Rhs> for KiloBytesPerSecond<T> {
    open spec fn obeys_sub_spec() -> bool {
        true
    }

    open spec fn sub_req(self, rhs: Rhs) -> bool {
        &&& spec_convert::<Rhs, Self>(rhs) is Ok
        &&& self.0.spec_value() >= spec_convert::<Rhs, Self>(rhs)->Ok_0
    }

    open spec fn sub_spec(self, rhs: Rhs) -> Self {
        KiloBytesPerSecond(T::spec_from_nat((self.0.spec_value() - spec_convert::<Rhs, Self>(rhs)->Ok_0) as nat))
    }
}

impl<T: TimeInt, Rhs: FixedPoint> core::ops::Rem<Rhs> for KiloBytesPerSecond<T> {
    type Output = Self;

    /// Returns the remainder as the LHS type
    fn rem(self, rhs: Rhs) -> (r: Self) {
        let r = FixedPointOps::rem(self, rhs);
        proof {
            if spec_convert::<Rhs, Self>(rhs) is Ok {
                let v = spec_convert::<Rhs, Self>(rhs)->Ok_0;
                let m: nat = if v > 0 {
                    self.0.spec_value() % v
                } else {
                    0
                };
                T::lemma_range(self.0, self.0);
                T::lemma_from_nat(m);
                T::lemma_range(r.0, T::spec_from_nat(m));
            }
        }
        r
    }
}

impl<T: TimeInt, Rhs: FixedPoint> RemSpecImpl<Rhs> for KiloBytesPerSecond<T> {
    open spec fn obeys_rem_spec() -> bool {
        true
    }

    open spec fn rem_req(self, rhs: Rhs) -> bool {
        true
    }

    open spec fn rem_spec(self, rhs: Rhs) -> Self {
        match spec_convert::<Rhs, Self>(rhs) {
            Ok(v) => KiloBytesPerSecond(
                T::spec_from_nat(
                    if v > 0 {
                        self.0.spec_value() % v
                    } else {
                        0
                    },
                ),
            ),
            Err(_) => self,
        }
    }
}

impl<SourceInt: TimeInt, DestInt: TimeInt> TryFrom<Generic<SourceInt>> for KiloBytesPerSecond<DestInt> {
    type Error = ConversionError;

    /// Construct this unit from a `Generic` value (a scaling factor with a zero denominator is
    /// reported as [`ConversionError::DivByZero`])
    fn try_from(generic: Generic<SourceInt>) -> (r: Result<Self, ConversionError>) {
        if *generic.scaling_factor().denominator() == 0 {
            Err(ConversionError::DivByZero)
        } else {
            let r = Self::try_from_generic(generic);
            proof {
                if r is Ok {
                    DestInt::lemma_range(r->Ok_0.0, r->Ok_0.0);
                    DestInt::lemma_from_nat(r->Ok_0.0.spec_value());
                    DestInt::lemma_range(r->Ok_0.0, DestInt::spec_from_nat(r->Ok_0.0.spec_value()));
                }
            }
            r
        }
    }
}

impl<SourceInt: TimeInt, DestInt: TimeInt> TryFromSpecImpl<Generic<SourceInt>> for KiloBytesPerSecond<DestInt> {
    open spec fn obeys_try_from_spec() -> bool {
        true
    }

    open spec fn try_from_spec(generic: Generic<SourceInt>) -> Result<Self, ConversionError> {
        if generic.spec_scaling_factor().spec_denom() == 0 {
            Err(ConversionError::DivByZero)
        } else {
            match spec_from_ticks(
                generic.spec_integer().spec_value(),
                SourceInt::spec_max(),
                generic.spec_scaling_factor(),
                DestInt::spec_max(),
                Fraction::spec_new(1000, 1),
            ) {
                Ok(v) => Ok(KiloBytesPerSecond(DestInt::spec_from_nat(v))),
                Err(e) => Err(e),
            }
        }
    }
}

impl<T: TimeInt> From<KiloBytesPerSecond<T>> for Generic<T> {
    /// The `Generic` `Rate` of the same integer and scaling factor
    fn from(rate: KiloBytesPerSecond<T>) -> (r: Self) {
        Self::new(rate.0, Fraction::new(1000, 1))
    }
}

impl<T: TimeInt> FromSpecImpl<KiloBytesPerSecond<T>> for Generic<T> {
    open spec fn obeys_from_spec() -> bool {
        true
    }

    open spec fn from_spec(rate: KiloBytesPerSecond<T>) -> Self {
        Generic::spec_new(rate.0, Fraction::spec_new(1000, 1))
    }
}

/// A rate unit type: Bytes/s
#[derive(Clone, Copy, Debug, Eq)]
pub struct BytesPerSecond<T: TimeInt = u32>(pub T);

impl<T: TimeInt> BytesPerSecond<T> {
    /// Construct a new value of this unit
    pub fn new(value: T) -> (r: Self)
        ensures
            r.0 == value,
    {
        Self(value)
    }

    /// Construct this unit from a `Generic` value of any scaling factor (with a positive
    /// denominator)
    ///
    /// # Errors
    ///
    /// As [`from_ticks`]
    pub fn try_from_generic<SourceInt: TimeInt>(generic: Generic<SourceInt>) -> (r: Result<
        Self,
        ConversionError,
    >)
        requires
            generic.spec_scaling_factor().spec_denom() > 0,
        ensures
            match spec_from_ticks(
                generic.spec_integer().spec_value(),
                SourceInt::spec_max(),
                generic.spec_scaling_factor(),
                T::spec_max(),
                Self::spec_scaling_factor(),
            ) {
                Ok(v) => r matches Ok(d) && d.0.spec_value() == v,
                Err(e) => r == Err::<Self, ConversionError>(e),
            },
    {
        from_ticks(*generic.integer(), *generic.scaling_factor())
    }
}

impl<T: TimeInt> Rate for BytesPerSecond<T> {

}

impl<T: TimeInt> FixedPoint for BytesPerSecond<T> {
    type T = T;

    open spec fn spec_scaling_factor() -> Fraction {
        Fraction::spec_new(1, 1)
    }

    proof fn lemma_scaling_factor() {
        Fraction::lemma_spec_new(1, 1);
    }

    fn scaling_factor() -> (r: Fraction) {
        Fraction::new(1, 1)
    }

    open spec fn spec_integer(self) -> T {
        self.0
    }

    fn new(value: T) -> (r: Self) {
        Self(value)
    }

    fn integer(&self) -> (r: &T) {
        &self.0
    }
}

impl<T: TimeInt, Rhs: FixedPoint> PartialEq<Rhs> for BytesPerSecond<T> {
    fn eq(&self, rhs: &Rhs) -> (r: bool) {
        FixedPointOps::eq(self, rhs)
    }
}

impl<T: TimeInt, Rhs: FixedPoint> PartialEqSpecImpl<Rhs> for BytesPerSecond<T> {
    open spec fn obeys_eq_spec() -> bool {
        true
    }

    open spec fn eq_spec(&self, rhs: &Rhs) -> bool {
        spec_fixed_eq(*self, *rhs)
    }
}

impl<T: TimeInt, Rhs: FixedPoint> PartialOrd<Rhs> for BytesPerSecond<T> {
    fn partial_cmp(&self, rhs: &Rhs) -> (r: Option<Ordering>) {
        FixedPointOps::partial_cmp(self, rhs)
    }
}

impl<T: TimeInt, Rhs: FixedPoint> PartialOrdSpecImpl<Rhs> for BytesPerSecond<T> {
    open spec fn obeys_partial_cmp_spec() -> bool {
        true
    }

    open spec fn partial_cmp_spec(&self, rhs: &Rhs) -> Option<Ordering> {
        Some(fixed_order(*self, *rhs))
    }
}

impl<T: TimeInt, Rhs: FixedPoint> core::ops::Add<Rhs> for BytesPerSecond<T> {
    type Output = Self;

    /// Returns the sum as the LHS type
    fn add(self, rhs: Rhs) -> (r: Self) {
        let r = FixedPointOps::add(self, rhs);
        proof {
            let v = self.0.spec_value() + spec_convert::<Rhs, Self>(rhs)->Ok_0;
            T::lemma_from_nat(v);
            T::lemma_range(r.0, T::spec_from_nat(v));
        }
        r
    }
}

impl<T: TimeInt, Rhs: FixedPoint> AddSpecImpl<Rhs> for BytesPerSecond<T> {
    open spec fn obeys_add_spec() -> bool {
        true
    }

    open spec fn add_req(self, rhs: Rhs) -> bool {
        &&& spec_convert::<Rhs, Self>(rhs) is Ok
        &&& self.0.spec_value() + spec_convert::<Rhs, Self>(rhs)->Ok_0 <= T::spec_max()
    }

    open spec fn add_spec(self, rhs: Rhs) -> Self {
        BytesPerSecond(T::spec_from_nat(self.0.spec_value() + spec_convert::<Rhs, Self>(rhs)->Ok_0))
    }
}

impl<T: TimeInt, Rhs: FixedPoint> core::ops::Sub<Rhs> for BytesPerSecond<T> {
    type Output = Self;

    /// Returns the difference as the LHS type
    fn sub(self, rhs: Rhs) -> (r: Self) {
        let r = FixedPointOps::sub(self, rhs);
        proof {
            let v = (self.0.spec_value() - spec_convert::<Rhs, Self>(rhs)->Ok_0) as nat;
            T::lemma_range(self.0, self.0);
            T::lemma_from_nat(v);
            T::lemma_range(r.0, T::spec_from_nat(v));
        }
        r
    }
}

impl<T: TimeInt, Rhs: FixedPoint> SubSpecImpl<Rhs> for BytesPerSecond<T> {
    open spec fn obeys_sub_spec() -> bool {
        true
    }

    open spec fn sub_req(self, rhs: Rhs) -> bool {
        &&& spec_convert::<Rhs, Self>(rhs) is Ok
        &&& self.0.spec_value() >= spec_convert::<Rhs, Self>(rhs)->Ok_0
    }

    open spec fn sub_spec(self, rhs: Rhs) -> Self {
        BytesPerSecond(T::spec_from_nat((self.0.spec_value() - spec_convert::<Rhs, Self>(rhs)->Ok_0) as nat))
    }
}

impl<T: TimeInt, Rhs: FixedPoint> core::ops::Rem<Rhs> for BytesPerSecond<T> {
    type Output = Self;

    /// Returns the remainder as the LHS type
    fn rem(self, rhs: Rhs) -> (r: Self) {
        let r = FixedPointOps::rem(self, rhs);
        proof {
            if spec_convert::<Rhs, Self>(rhs) is Ok {
                let v = spec_convert::<Rhs, Self>(rhs)->Ok_0;
                let m: nat = if v > 0 {
                    self.0.spec_value() % v
                } else {
                    0
                };
                T::lemma_range(self.0, self.0);
                T::lemma_from_nat(m);
                T::lemma_range(r.0, T::spec_from_nat(m));
            }
        }
        r
    }
}

impl<T: TimeInt, Rhs: FixedPoint> RemSpecImpl<Rhs> for BytesPerSecond<T> {
    open spec fn obeys_rem_spec() -> bool {
        true
    }

    open spec fn rem_req(self, rhs: Rhs) -> bool {
        true
    }

    open spec fn rem_spec(self, rhs: Rhs) -> Self {
        match spec_convert::<Rhs, Self>(rhs) {
            Ok(v) => BytesPerSecond(
                T::spec_from_nat(
                    if v > 0 {
                        self.0.spec_value() % v
                    } else {
                        0
                    },
                ),
            ),
            Err(_) => self,
        }
    }
}

impl<SourceInt: TimeInt, DestInt: TimeInt> TryFrom<Generic<SourceInt>> for BytesPerSecond<DestInt> {
    type Error = ConversionError;

    /// Construct this unit from a `Generic` value (a scaling factor with a zero denominator is
    /// reported as [`ConversionError::DivByZero`])
    fn try_from(generic: Generic<SourceInt>) -> (r: Result<Self, ConversionError>) {
        if *generic.scaling_factor().denominator() == 0 {
            Err(ConversionError::DivByZero)
        } else {
            let r = Self::try_from_generic(generic);
            proof {
                if r is Ok {
                    DestInt::lemma_range(r->Ok_0.0, r->Ok_0.0);
                    DestInt::lemma_from_nat(r->Ok_0.0.spec_value());
                    DestInt::lemma_range(r->Ok_0.0, DestInt::spec_from_nat(r->Ok_0.0.spec_value()));
                }
            }
            r
        }
    }
}

impl<SourceInt: TimeInt, DestInt: TimeInt> TryFromSpecImpl<Generic<SourceInt>> for BytesPerSecond<DestInt> {
    open spec fn obeys_try_from_spec() -> bool {
        true
    }

    open spec fn try_from_spec(generic: Generic<SourceInt>) -> Result<Self, ConversionError> {
        if generic.spec_scaling_factor().spec_denom() == 0 {
            Err(ConversionError::DivByZero)
        } else {
            match spec_from_ticks(
                generic.spec_integer().spec_value(),
                SourceInt::spec_max(),
                generic.spec_scaling_factor(),
                DestInt::spec_max(),
                Fraction::spec_new(1, 1),
            ) {
                Ok(v) => Ok(BytesPerSecond(DestInt::spec_from_nat(v))),
                Err(e) => Err(e),
            }
        }
    }
}

impl<T: TimeInt> From<BytesPerSecond<T>> for Generic<T> {
    /// The `Generic` `Rate` of the same integer and scaling factor
    fn from(rate: BytesPerSecond<T>) -> (r: Self) {
        Self::new(rate.0, Fraction::new(1, 1))
    }
}

impl<T: TimeInt> FromSpecImpl<BytesPerSecond<T>> for Generic<T> {
    open spec fn obeys_from_spec() -> bool {
        true
    }

    open spec fn from_spec(rate: BytesPerSecond<T>) -> Self {
        Generic::spec_new(rate.0, Fraction::spec_new(1, 1))
    }
}

/// A rate unit type: Bits/s × 1,048,576
#[derive(Clone, Copy, Debug, Eq)]
pub struct MebibitsPerSecond<T: TimeInt = u32>(pub T);

impl<T: TimeInt> MebibitsPerSecond<T> {
    /// Construct a new value of this unit
    pub fn new(value: T) -> (r: Self)
        ensures
            r.0 == value,
    {
        Self(value)
    }

    /// Construct this unit from a `Generic` value of any scaling factor (with a positive
    /// denominator)
    ///
    /// # Errors
    ///
    /// As [`from_ticks`]
    pub fn try_from_generic<SourceInt: TimeInt>(generic: Generic<SourceInt>) -> (r: Result<
        Self,
        ConversionError,
    >)
        requires
            generic.spec_scaling_factor().spec_denom() > 0,
        ensures
            match spec_from_ticks(
                generic.spec_integer().spec_value(),
                SourceInt::spec_max(),
                generic.spec_scaling_factor(),
                T::spec_max(),
                Self::spec_scaling_factor(),
            ) {
                Ok(v) => r matches Ok(d) && d.0.spec_value() == v,
                Err(e) => r == Err::<Self, ConversionError>(e),
            },
    {
        from_ticks(*generic.integer(), *generic.scaling_factor())
    }
}

impl<T: TimeInt> Rate for MebibitsPerSecond<T> {

}

impl<T: TimeInt> FixedPoint for MebibitsPerSecond<T> {
    type T = T;

    open spec fn spec_scaling_factor() -> Fraction {
        Fraction::spec_new(1048576, 1)
    }

    proof fn lemma_scaling_factor() {
        Fraction::lemma_spec_new(1048576, 1);
    }

    fn scaling_factor() -> (r: Fraction) {
        Fraction::new(1048576, 1)
    }

    open spec fn spec_integer(self) -> T {
        self.0
    }

    fn new(value: T) -> (r: Self) {
        Self(value)
    }

    fn integer(&self) -> (r: &T) {
        &self.0
    }
}

impl<T: TimeInt, Rhs: FixedPoint> PartialEq<Rhs> for MebibitsPerSecond<T> {
    fn eq(&self, rhs: &Rhs) -> (r: bool) {
        FixedPointOps::eq(self, rhs)
    }
}

impl<T: TimeInt, Rhs: FixedPoint> PartialEqSpecImpl<Rhs> for MebibitsPerSecond<T> {
    open spec fn obeys_eq_spec() -> bool {
        true
    }

    open spec fn eq_spec(&self, rhs: &Rhs) -> bool {
        spec_fixed_eq(*self, *rhs)
    }
}

impl<T: TimeInt, Rhs: FixedPoint> PartialOrd<Rhs> for MebibitsPerSecond<T> {
    fn partial_cmp(&self, rhs: &Rhs) -> (r: Option<Ordering>) {
        FixedPointOps::partial_cmp(self, rhs)
    }
}

impl<T: TimeInt, Rhs: FixedPoint> PartialOrdSpecImpl<Rhs> for MebibitsPerSecond<T> {
    open spec fn obeys_partial_cmp_spec() -> bool {
        true
    }

    open spec fn partial_cmp_spec(&self, rhs: &Rhs) -> Option<Ordering> {
        Some(fixed_order(*self, *rhs))
    }
}

impl<T: TimeInt, Rhs: FixedPoint> core::ops::Add<Rhs> for MebibitsPerSecond<T> {
    type Output = Self;

    /// Returns the sum as the LHS type
    fn add(self, rhs: Rhs) -> (r: Self) {
        let r = FixedPointOps::add(self, rhs);
        proof {
            let v = self.0.spec_value() + spec_convert::<Rhs, Self>(rhs)->Ok_0;
            T::lemma_from_nat(v);
            T::lemma_range(r.0, T::spec_from_nat(v));
        }
        r
    }
}

impl<T: TimeInt, Rhs: FixedPoint> AddSpecImpl<Rhs> for MebibitsPerSecond<T> {
    open spec fn obeys_add_spec() -> bool {
        true
    }

    open spec fn add_req(self, rhs: Rhs) -> bool {
        &&& spec_convert::<Rhs, Self>(rhs) is Ok
        &&& self.0.spec_value() + spec_convert::<Rhs, Self>(rhs)->Ok_0 <= T::spec_max()
    }

    open spec fn add_spec(self, rhs: Rhs) -> Self {
        MebibitsPerSecond(T::spec_from_nat(self.0.spec_value() + spec_convert::<Rhs, Self>(rhs)->Ok_0))
    }
}

impl<T: TimeInt, Rhs: FixedPoint> core::ops::Sub<Rhs> for MebibitsPerSecond<T> {
    type Output = Self;

    /// Returns the difference as the LHS type
    fn sub(self, rhs: Rhs) -> (r: Self) {
        let r = FixedPointOps::sub(self, rhs);
        proof {
            let v = (self.0.spec_value() - spec_convert::<Rhs, Self>(rhs)->Ok_0) as nat;
            T::lemma_range(self.0, self.0);
            T::lemma_from_nat(v);
            T::lemma_range(r.0, T::spec_from_nat(v));
        }
        r
    }
}

impl<T: TimeInt, Rhs: FixedPoint> SubSpecImpl<Rhs> for MebibitsPerSecond<T> {
    open spec fn obeys_sub_spec() -> bool {
        true
    }

    open spec fn sub_req(self, rhs: Rhs) -> bool {
        &&& spec_convert::<Rhs, Self>(rhs) is Ok
        &&& self.0.spec_value() >= spec_convert::<Rhs, Self>(rhs)->Ok_0
    }

    open spec fn sub_spec(self, rhs: Rhs) -> Self {
        MebibitsPerSecond(T::spec_from_nat((self.0.spec_value() - spec_convert::<Rhs, Self>(rhs)->Ok_0) as nat))
    }
}

impl<T: TimeInt, Rhs: FixedPoint> core::ops::Rem<Rhs> for MebibitsPerSecond<T> {
    type Output = Self;

    /// Returns the remainder as the LHS type
    fn rem(self, rhs: Rhs) -> (r: Self) {
        let r = FixedPointOps::rem(self, rhs);
        proof {
            if spec_convert::<Rhs, Self>(rhs) is Ok {
                let v = spec_convert::<Rhs, Self>(rhs)->Ok_0;
                let m: nat = if v > 0 {
                    self.0.spec_value() % v
                } else {
                    0
                };
                T::lemma_range(self.0, self.0);
                T::lemma_from_nat(m);
                T::lemma_range(r.0, T::spec_from_nat(m));
            }
        }
        r
    }
}

impl<T: TimeInt, Rhs: FixedPoint> RemSpecImpl<Rhs> for MebibitsPerSecond<T> {
    open spec fn obeys_rem_spec() -> bool {
        true
    }

    open spec fn rem_req(self, rhs: Rhs) -> bool {
        true
    }

    open spec fn rem_spec(self, rhs: Rhs) -> Self {
        match spec_convert::<Rhs, Self>(rhs) {
            Ok(v) => MebibitsPerSecond(
                T::spec_from_nat(
                    if v > 0 {
                        self.0.spec_value() % v
                    } else {
                        0
                    },
                ),
            ),
            Err(_) => self,
        }
    }
}

impl<SourceInt: TimeInt, DestInt: TimeInt> TryFrom<Generic<SourceInt>> for MebibitsPerSecond<DestInt> {
    type Error = ConversionError;

    /// Construct this unit from a `Generic` value (a scaling factor with a zero denominator is
    /// reported as [`ConversionError::DivByZero`])
    fn try_from(generic: Generic<SourceInt>) -> (r: Result<Self, ConversionError>) {
        if *generic.scaling_factor().denominator() == 0 {
            Err(ConversionError::DivByZero)
        } else {
            let r = Self::try_from_generic(generic);
            proof {
                if r is Ok {
                    DestInt::lemma_range(r->Ok_0.0, r->Ok_0.0);
                    DestInt::lemma_from_nat(r->Ok_0.0.spec_value());
                    DestInt::lemma_range(r->Ok_0.0, DestInt::spec_from_nat(r->Ok_0.0.spec_value()));
                }
            }
            r
        }
    }
}

impl<SourceInt: TimeInt, DestInt: TimeInt> TryFromSpecImpl<Generic<SourceInt>> for MebibitsPerSecond<DestInt> {
    open spec fn obeys_try_from_spec() -> bool {
        true
    }

    open spec fn try_from_spec(generic: Generic<SourceInt>) -> Result<Self, ConversionError> {
        if generic.spec_scaling_factor().spec_denom() == 0 {
            Err(ConversionError::DivByZero)
        } else {
            match spec_from_ticks(
                generic.spec_integer().spec_value(),
                SourceInt::spec_max(),
                generic.spec_scaling_factor(),
                DestInt::spec_max(),
                Fraction::spec_new(1048576, 1),
            ) {
                Ok(v) => Ok(MebibitsPerSecond(DestInt::spec_from_nat(v))),
                Err(e) => Err(e),
            }
        }
    }
}

impl<T: TimeInt> From<MebibitsPerSecond<T>> for Generic<T> {
    /// The `Generic` `Rate` of the same integer and scaling factor
    fn from(rate: MebibitsPerSecond<T>) -> (r: Self) {
        Self::new(rate.0, Fraction::new(1048576, 1))
    }
}

impl<T: TimeInt> FromSpecImpl<MebibitsPerSecond<T>> for Generic<T> {
    open spec fn obeys_from_spec() -> bool {
        true
    }

    open spec fn from_spec(rate: MebibitsPerSecond<T>) -> Self {
        Generic::spec_new(rate.0, Fraction::spec_new(1048576, 1))
    }
}

/// A rate unit type: Bits/s × 1,000,000
#[derive(Clone, Copy, Debug, Eq)]
pub struct MegabitsPerSecond<T: TimeInt = u32>(pub T);

impl<T: TimeInt> MegabitsPerSecond<T> {
    /// Construct a new value of this unit
    pub fn new(value: T) -> (r: Self)
        ensures
            r.0 == value,
    {
        Self(value)
    }

    /// Construct this unit from a `Generic` value of any scaling factor (with a positive
    /// denominator)
    ///
    /// # Errors
    ///
    /// As [`from_ticks`]
    pub fn try_from_generic<SourceInt: TimeInt>(generic: Generic<SourceInt>) -> (r: Result<
        Self,
        ConversionError,
    >)
        requires
            generic.spec_scaling_factor().spec_denom() > 0,
        ensures
            match spec_from_ticks(
                generic.spec_integer().spec_value(),
                SourceInt::spec_max(),
                generic.spec_scaling_factor(),
                T::spec_max(),
                Self::spec_scaling_factor(),
            ) {
                Ok(v) => r matches Ok(d) && d.0.spec_value() == v,
                Err(e) => r == Err::<Self, ConversionError>(e),
            },
    {
        from_ticks(*generic.integer(), *generic.scaling_factor())
    }
}

impl<T: TimeInt> Rate for MegabitsPerSecond<T> {

}

impl<T: TimeInt> FixedPoint for MegabitsPerSecond<T> {
    type T = T;

    open spec fn spec_scaling_factor() -> Fraction {
        Fraction::spec_new(1000000, 1)
    }

    proof fn lemma_scaling_factor() {
        Fraction::lemma_spec_new(1000000, 1);
    }

    fn scaling_factor() -> (r: Fraction) {
        Fraction::new(1000000, 1)
    }

    open spec fn spec_integer(self) -> T {
        self.0
    }

    fn new(value: T) -> (r: Self) {
        Self(value)
    }

    fn integer(&self) -> (r: &T) {
        &self.0
    }
}

impl<T: TimeInt, Rhs: FixedPoint> PartialEq<Rhs> for MegabitsPerSecond<T> {
    fn eq(&self, rhs: &Rhs) -> (r: bool) {
        FixedPointOps::eq(self, rhs)
    }
}

impl<T: TimeInt, Rhs: FixedPoint> PartialEqSpecImpl<Rhs> for MegabitsPerSecond<T> {
    open spec fn obeys_eq_spec() -> bool {
        true
    }

    open spec fn eq_spec(&self, rhs: &Rhs) -> bool {
        spec_fixed_eq(*self, *rhs)
    }
}

impl<T: TimeInt, Rhs: FixedPoint> PartialOrd<Rhs> for MegabitsPerSecond<T> {
    fn partial_cmp(&self, rhs: &Rhs) -> (r: Option<Ordering>) {
        FixedPointOps::partial_cmp(self, rhs)
    }
}

impl<T: TimeInt, Rhs: FixedPoint> PartialOrdSpecImpl<Rhs> for MegabitsPerSecond<T> {
    open spec fn obeys_partial_cmp_spec() -> bool {
        true
    }

    open spec fn partial_cmp_spec(&self, rhs: &Rhs) -> Option<Ordering> {
        Some(fixed_order(*self, *rhs))
    }
}

impl<T: TimeInt, Rhs: FixedPoint> core::ops::Add<Rhs> for MegabitsPerSecond<T> {
    type Output = Self;

    /// Returns the sum as the LHS type
    fn add(self, rhs: Rhs) -> (r: Self) {
        let r = FixedPointOps::add(self, rhs);
        proof {
            let v = self.0.spec_value() + spec_convert::<Rhs, Self>(rhs)->Ok_0;
            T::lemma_from_nat(v);
            T::lemma_range(r.0, T::spec_from_nat(v));
        }
        r
    }
}

impl<T: TimeInt, Rhs: FixedPoint> AddSpecImpl<Rhs> for MegabitsPerSecond<T> {
    open spec fn obeys_add_spec() -> bool {
        true
    }

    open spec fn add_req(self, rhs: Rhs) -> bool {
        &&& spec_convert::<Rhs, Self>(rhs) is Ok
        &&& self.0.spec_value() + spec_convert::<Rhs, Self>(rhs)->Ok_0 <= T::spec_max()
    }

    open spec fn add_spec(self, rhs: Rhs) -> Self {
        MegabitsPerSecond(T::spec_from_nat(self.0.spec_value() + spec_convert::<Rhs, Self>(rhs)->Ok_0))
    }
}

impl<T: TimeInt, Rhs: FixedPoint> core::ops::Sub<Rhs> for MegabitsPerSecond<T> {
    type Output = Self;

    /// Returns the difference as the LHS type
    fn sub(self, rhs: Rhs) -> (r: Self) {
        let r = FixedPointOps::sub(self, rhs);
        proof {
            let v = (self.0.spec_value() - spec_convert::<Rhs, Self>(rhs)->Ok_0) as nat;
            T::lemma_range(self.0, self.0);
            T::lemma_from_nat(v);
            T::lemma_range(r.0, T::spec_from_nat(v));
        }
        r
    }
}

impl<T: TimeInt, Rhs: FixedPoint> SubSpecImpl<Rhs> for MegabitsPerSecond<T> {
    open spec fn obeys_sub_spec() -> bool {
        true
    }

    open spec fn sub_req(self, rhs: Rhs) -> bool {
        &&& spec_convert::<Rhs, Self>(rhs) is Ok
        &&& self.0.spec_value() >= spec_convert::<Rhs, Self>(rhs)->Ok_0
    }

    open spec fn sub_spec(self, rhs: Rhs) -> Self {
        MegabitsPerSecond(T::spec_from_nat((self.0.spec_value() - spec_convert::<Rhs, Self>(rhs)->Ok_0) as nat))
    }
}

impl<T: TimeInt, Rhs: FixedPoint> core::ops::Rem<Rhs> for MegabitsPerSecond<T> {
    type Output = Self;

    /// Returns the remainder as the LHS type
    fn rem(self, rhs: Rhs) -> (r: Self) {
        let r = FixedPointOps::rem(self, rhs);
        proof {
            if spec_convert::<Rhs, Self>(rhs) is Ok {
                let v = spec_convert::<Rhs, Self>(rhs)->Ok_0;
                let m: nat = if v > 0 {
                    self.0.spec_value() % v
                } else {
                    0
                };
                T::lemma_range(self.0, self.0);
                T::lemma_from_nat(m);
                T::lemma_range(r.0, T::spec_from_nat(m));
            }
        }
        r
    }
}

impl<T: TimeInt, Rhs: FixedPoint> RemSpecImpl<Rhs> for MegabitsPerSecond<T> {
    open spec fn obeys_rem_spec() -> bool {
        true
    }

    open spec fn rem_req(self, rhs: Rhs) -> bool {
        true
    }

    open spec fn rem_spec(self, rhs: Rhs) -> Self {
        match spec_convert::<Rhs, Self>(rhs) {
            Ok(v) => MegabitsPerSecond(
                T::spec_from_nat(
                    if v > 0 {
                        self.0.spec_value() % v
                    } else {
                        0
                    },
                ),
            ),
            Err(_) => self,
        }
    }
}

impl<SourceInt: TimeInt, DestInt: TimeInt> TryFrom<Generic<SourceInt>> for MegabitsPerSecond<DestInt> {
    type Error = ConversionError;

    /// Construct this unit from a `Generic` value (a scaling factor with a zero denominator is
    /// reported as [`ConversionError::DivByZero`])
    fn try_from(generic: Generic<SourceInt>) -> (r: Result<Self, ConversionError>) {
        if *generic.scaling_factor().denominator() == 0 {
            Err(ConversionError::DivByZero)
        } else {
            let r = Self::try_from_generic(generic);
            proof {
                if r is Ok {
                    DestInt::lemma_range(r->Ok_0.0, r->Ok_0.0);
                    DestInt::lemma_from_nat(r->Ok_0.0.spec_value());
                    DestInt::lemma_range(r->Ok_0.0, DestInt::spec_from_nat(r->Ok_0.0.spec_value()));
                }
            }
            r
        }
    }
}

impl<SourceInt: TimeInt, DestInt: TimeInt> TryFromSpecImpl<Generic<SourceInt>> for MegabitsPerSecond<DestInt> {
    open spec fn obeys_try_from_spec() -> bool {
        true
    }

    open spec fn try_from_spec(generic: Generic<SourceInt>) -> Result<Self, ConversionError> {
        if generic.spec_scaling_factor().spec_denom() == 0 {
            Err(ConversionError::DivByZero)
        } else {
            match spec_from_ticks(
                generic.spec_integer().spec_value(),
                SourceInt::spec_max(),
                generic.spec_scaling_factor(),
                DestInt::spec_max(),
                Fraction::spec_new(1000000, 1),
            ) {
                Ok(v) => Ok(MegabitsPerSecond(DestInt::spec_from_nat(v))),
                Err(e) => Err(e),
            }
        }
    }
}

impl<T: TimeInt> From<MegabitsPerSecond<T>> for Generic<T> {
    /// The `Generic` `Rate` of the same integer and scaling factor
    fn from(rate: MegabitsPerSecond<T>) -> (r: Self) {
        Self::new(rate.0, Fraction::new(1000000, 1))
    }
}

impl<T: TimeInt> FromSpecImpl<MegabitsPerSecond<T>> for Generic<T> {
    open spec fn obeys_from_spec() -> bool {
        true
    }

    open spec fn from_spec(rate: MegabitsPerSecond<T>) -> Self {
        Generic::spec_new(rate.0, Fraction::spec_new(1000000, 1))
    }
}

/// A rate unit type: Bits/s × 1,024
#[derive(Clone, Copy, Debug, Eq)]
pub struct KibibitsPerSecond<T: TimeInt = u32>(pub T);

impl<T: TimeInt> KibibitsPerSecond<T> {
    /// Construct a new value of this unit
    pub fn new(value: T) -> (r: Self)
        ensures
            r.0 == value,
    {
        Self(value)
    }

    /// Construct this unit from a `Generic` value of any scaling factor (with a positive
    /// denominator)
    ///
    /// # Errors
    ///
    /// As [`from_ticks`]
    pub fn try_from_generic<SourceInt: TimeInt>(generic: Generic<SourceInt>) -> (r: Result<
        Self,
        ConversionError,
    >)
        requires
            generic.spec_scaling_factor().spec_denom() > 0,
        ensures
            match spec_from_ticks(
                generic.spec_integer().spec_value(),
                SourceInt::spec_max(),
                generic.spec_scaling_factor(),
                T::spec_max(),
                Self::spec_scaling_factor(),
            ) {
                Ok(v) => r matches Ok(d) && d.0.spec_value() == v,
                Err(e) => r == Err::<Self, ConversionError>(e),
            },
    {
        from_ticks(*generic.integer(), *generic.scaling_factor())
    }
}

impl<T: TimeInt> Rate for KibibitsPerSecond<T> {

}

impl<T: TimeInt> FixedPoint for KibibitsPerSecond<T> {
    type T = T;

    open spec fn spec_scaling_factor() -> Fraction {
        Fraction::spec_new(1024, 1)
    }

    proof fn lemma_scaling_factor() {
        Fraction::lemma_spec_new(1024, 1);
    }

    fn scaling_factor() -> (r: Fraction) {
        Fraction::new(1024, 1)
    }

    open spec fn spec_integer(self) -> T {
        self.0
    }

    fn new(value: T) -> (r: Self) {
        Self(value)
    }

    fn integer(&self) -> (r: &T) {
        &self.0
    }
}

impl<T: TimeInt, Rhs: FixedPoint> PartialEq<Rhs> for KibibitsPerSecond<T> {
    fn eq(&self, rhs: &Rhs) -> (r: bool) {
        FixedPointOps::eq(self, rhs)
    }
}

impl<T: TimeInt, Rhs: FixedPoint> PartialEqSpecImpl<Rhs> for KibibitsPerSecond<T> {
    open spec fn obeys_eq_spec() -> bool {
        true
    }

    open spec fn eq_spec(&self, rhs: &Rhs) -> bool {
        spec_fixed_eq(*self, *rhs)
    }
}

impl<T: TimeInt, Rhs: FixedPoint> PartialOrd<Rhs> for KibibitsPerSecond<T> {
    fn partial_cmp(&self, rhs: &Rhs) -> (r: Option<Ordering>) {
        FixedPointOps::partial_cmp(self, rhs)
    }
}

impl<T: TimeInt, Rhs: FixedPoint> PartialOrdSpecImpl<Rhs> for KibibitsPerSecond<T> {
    open spec fn obeys_partial_cmp_spec() -> bool {
        true
    }

    open spec fn partial_cmp_spec(&self, rhs: &Rhs) -> Option<Ordering> {
        Some(fixed_order(*self, *rhs))
    }
}

impl<T: TimeInt, Rhs: FixedPoint> core::ops::Add<Rhs> for KibibitsPerSecond<T> {
    type Output = Self;

    /// Returns the sum as the LHS type
    fn add(self, rhs: Rhs) -> (r: Self) {
        let r = FixedPointOps::add(self, rhs);
        proof {
            let v = self.0.spec_value() + spec_convert::<Rhs, Self>(rhs)->Ok_0;
            T::lemma_from_nat(v);
            T::lemma_range(r.0, T::spec_from_nat(v));
        }
        r
    }
}

impl<T: TimeInt, Rhs: FixedPoint> AddSpecImpl<Rhs> for KibibitsPerSecond<T> {
    open spec fn obeys_add_spec() -> bool {
        true
    }

    open spec fn add_req(self, rhs: Rhs) -> bool {
        &&& spec_convert::<Rhs, Self>(rhs) is Ok
        &&& self.0.spec_value() + spec_convert::<Rhs, Self>(rhs)->Ok_0 <= T::spec_max()
    }

    open spec fn add_spec(self, rhs: Rhs) -> Self {
        KibibitsPerSecond(T::spec_from_nat(self.0.spec_value() + spec_convert::<Rhs, Self>(rhs)->Ok_0))
    }
}

impl<T: TimeInt, Rhs: FixedPoint> core::ops::Sub<Rhs> for KibibitsPerSecond<T> {
    type Output = Self;

    /// Returns the difference as the LHS type
    fn sub(self, rhs: Rhs) -> (r: Self) {
        let r = FixedPointOps::sub(self, rhs);
        proof {
            let v = (self.0.spec_value() - spec_convert::<Rhs, Self>(rhs)->Ok_0) as nat;
            T::lemma_range(self.0, self.0);
            T::lemma_from_nat(v);
            T::lemma_range(r.0, T::spec_from_nat(v));
        }
        r
    }
}

impl<T: TimeInt, Rhs: FixedPoint> SubSpecImpl<Rhs> for KibibitsPerSecond<T> {
    open spec fn obeys_sub_spec() -> bool {
        true
    }

    open spec fn sub_req(self, rhs: Rhs) -> bool {
        &&& spec_convert::<Rhs, Self>(rhs) is Ok
        &&& self.0.spec_value() >= spec_convert::<Rhs, Self>(rhs)->Ok_0
    }

    open spec fn sub_spec(self, rhs: Rhs) -> Self {
        KibibitsPerSecond(T::spec_from_nat((self.0.spec_value() - spec_convert::<Rhs, Self>(rhs)->Ok_0) as nat))
    }
}

impl<T: TimeInt, Rhs: FixedPoint> core::ops::Rem<Rhs> for KibibitsPerSecond<T> {
    type Output = Self;

    /// Returns the remainder as the LHS type
    fn rem(self, rhs: Rhs) -> (r: Self) {
        let r = FixedPointOps::rem(self, rhs);
        proof {
            if spec_convert::<Rhs, Self>(rhs) is Ok {
                let v = spec_convert::<Rhs, Self>(rhs)->Ok_0;
                let m: nat = if v > 0 {
                    self.0.spec_value() % v
                } else {
                    0
                };
                T::lemma_range(self.0, self.0);
                T::lemma_from_nat(m);
                T::lemma_range(r.0, T::spec_from_nat(m));
            }
        }
        r
    }
}

impl<T: TimeInt, Rhs: FixedPoint> RemSpecImpl<Rhs> for KibibitsPerSecond<T> {
    open spec fn obeys_rem_spec() -> bool {
        true
    }

    open spec fn rem_req(self, rhs: Rhs) -> bool {
        true
    }

    open spec fn rem_spec(self, rhs: Rhs) -> Self {
        match spec_convert::<Rhs, Self>(rhs) {
            Ok(v) => KibibitsPerSecond(
                T::spec_from_nat(
                    if v > 0 {
                        self.0.spec_value() % v
                    } else {
                        0
                    },
                ),
            ),
            Err(_) => self,
        }
    }
}

impl<SourceInt: TimeInt, DestInt: TimeInt> TryFrom<Generic<SourceInt>> for KibibitsPerSecond<DestInt> {
    type Error = ConversionError;

    /// Construct this unit from a `Generic` value (a scaling factor with a zero denominator is
    /// reported as [`ConversionError::DivByZero`])
    fn try_from(generic: Generic<SourceInt>) -> (r: Result<Self, ConversionError>) {
        if *generic.scaling_factor().denominator() == 0 {
            Err(ConversionError::DivByZero)
        } else {
            let r = Self::try_from_generic(generic);
            proof {
                if r is Ok {
                    DestInt::lemma_range(r->Ok_0.0, r->Ok_0.0);
                    DestInt::lemma_from_nat(r->Ok_0.0.spec_value());
                    DestInt::lemma_range(r->Ok_0.0, DestInt::spec_from_nat(r->Ok_0.0.spec_value()));
                }
            }
            r
        }
    }
}

impl<SourceInt: TimeInt, DestInt: TimeInt> TryFromSpecImpl<Generic<SourceInt>> for KibibitsPerSecond<DestInt> {
    open spec fn obeys_try_from_spec() -> bool {
        true
    }

    open spec fn try_from_spec(generic: Generic<SourceInt>) -> Result<Self, ConversionError> {
        if generic.spec_scaling_factor().spec_denom() == 0 {
            Err(ConversionError::DivByZero)
        } else {
            match spec_from_ticks(
                generic.spec_integer().spec_value(),
                SourceInt::spec_max(),
                generic.spec_scaling_factor(),
                DestInt::spec_max(),
                Fraction::spec_new(1024, 1),
            ) {
                Ok(v) => Ok(KibibitsPerSecond(DestInt::spec_from_nat(v))),
                Err(e) => Err(e),
            }
        }
    }
}

impl<T: TimeInt> From<KibibitsPerSecond<T>> for Generic<T> {
    /// The `Generic` `Rate` of the same integer and scaling factor
    fn from(rate: KibibitsPerSecond<T>) -> (r: Self) {
        Self::new(rate.0, Fraction::new(1024, 1))
    }
}

impl<T: TimeInt> FromSpecImpl<KibibitsPerSecond<T>> for Generic<T> {
    open spec fn obeys_from_spec() -> bool {
        true
    }

    open spec fn from_spec(rate: KibibitsPerSecond<T>) -> Self {
        Generic::spec_new(rate.0, Fraction::spec_new(1024, 1))
    }
}

/// A rate unit type: Bits/s × 1,000
#[derive(Clone, Copy, Debug, Eq)]
pub struct KilobitsPerSecond<T: TimeInt = u32>(pub T);

impl<T: TimeInt> KilobitsPerSecond<T> {
    /// Construct a new value of this unit
    pub fn new(value: T) -> (r: Self)
        ensures
            r.0 == value,
    {
        Self(value)
    }

    /// Construct this unit from a `Generic` value of any scaling factor (with a positive
    /// denominator)
    ///
    /// # Errors
    ///
    /// As [`from_ticks`]
    pub fn try_from_generic<SourceInt: TimeInt>(generic: Generic<SourceInt>) -> (r: Result<
        Self,
        ConversionError,
    >)
        requires
            generic.spec_scaling_factor().spec_denom() > 0,
        ensures
            match spec_from_ticks(
                generic.spec_integer().spec_value(),
                SourceInt::spec_max(),
                generic.spec_scaling_factor(),
                T::spec_max(),
                Self::spec_scaling_factor(),
            ) {
                Ok(v) => r matches Ok(d) && d.0.spec_value() == v,
                Err(e) => r == Err::<Self, ConversionError>(e),
            },
    {
        from_ticks(*generic.integer(), *generic.scaling_factor())
    }
}

impl<T: TimeInt> Rate for KilobitsPerSecond<T> {

}

impl<T: TimeInt> FixedPoint for KilobitsPerSecond<T> {
    type T = T;

    open spec fn spec_scaling_factor() -> Fraction {
        Fraction::spec_new(1000, 1)
    }

    proof fn lemma_scaling_factor() {
        Fraction::lemma_spec_new(1000, 1);
    }

    fn scaling_factor() -> (r: Fraction) {
        Fraction::new(1000, 1)
    }

    open spec fn spec_integer(self) -> T {
        self.0
    }

    fn new(value: T) -> (r: Self) {
        Self(value)
    }

    fn integer(&self) -> (r: &T) {
        &self.0
    }
}

impl<T: TimeInt, Rhs: FixedPoint> PartialEq<Rhs> for KilobitsPerSecond<T> {
    fn eq(&self, rhs: &Rhs) -> (r: bool) {
        FixedPointOps::eq(self, rhs)
    }
}

impl<T: TimeInt, Rhs: FixedPoint> PartialEqSpecImpl<Rhs> for KilobitsPerSecond<T> {
    open spec fn obeys_eq_spec() -> bool {
        true
    }

    open spec fn eq_spec(&self, rhs: &Rhs) -> bool {
        spec_fixed_eq(*self, *rhs)
    }
}

impl<T: TimeInt, Rhs: FixedPoint> PartialOrd<Rhs> for KilobitsPerSecond<T> {
    fn partial_cmp(&self, rhs: &Rhs) -> (r: Option<Ordering>) {
        FixedPointOps::partial_cmp(self, rhs)
    }
}

impl<T: TimeInt, Rhs: FixedPoint> PartialOrdSpecImpl<Rhs> for KilobitsPerSecond<T> {
    open spec fn obeys_partial_cmp_spec() -> bool {
        true
    }

    open spec fn partial_cmp_spec(&self, rhs: &Rhs) -> Option<Ordering> {
        Some(fixed_order(*self, *rhs))
    }
}

impl<T: TimeInt, Rhs: FixedPoint> core::ops::Add<Rhs> for KilobitsPerSecond<T> {
    type Output = Self;

    /// Returns the sum as the LHS type
    fn add(self, rhs: Rhs) -> (r: Self) {
        let r = FixedPointOps::add(self, rhs);
        proof {
            let v = self.0.spec_value() + spec_convert::<Rhs, Self>(rhs)->Ok_0;
            T::lemma_from_nat(v);
            T::lemma_range(r.0, T::spec_from_nat(v));
        }
        r
    }
}

impl<T: TimeInt, Rhs: FixedPoint> AddSpecImpl<Rhs> for KilobitsPerSecond<T> {
    open spec fn obeys_add_spec() -> bool {
        true
    }

    open spec fn add_req(self, rhs: Rhs) -> bool {
        &&& spec_convert::<Rhs, Self>(rhs) is Ok
        &&& self.0.spec_value() + spec_convert::<Rhs, Self>(rhs)->Ok_0 <= T::spec_max()
    }

    open spec fn add_spec(self, rhs: Rhs) -> Self {
        KilobitsPerSecond(T::spec_from_nat(self.0.spec_value() + spec_convert::<Rhs, Self>(rhs)->Ok_0))
    }
}

impl<T: TimeInt, Rhs: FixedPoint> core::ops::Sub<Rhs> for KilobitsPerSecond<T> {
    type Output = Self;

    /// Returns the difference as the LHS type
    fn sub(self, rhs: Rhs) -> (r: Self) {
        let r = FixedPointOps::sub(self, rhs);
        proof {
            let v = (self.0.spec_value() - spec_convert::<Rhs, Self>(rhs)->Ok_0) as nat;
            T::lemma_range(self.0, self.0);
            T::lemma_from_nat(v);
            T::lemma_range(r.0, T::spec_from_nat(v));
        }
        r
    }
}

impl<T: TimeInt, Rhs: FixedPoint> SubSpecImpl<Rhs> for KilobitsPerSecond<T> {
    open spec fn obeys_sub_spec() -> bool {
        true
    }

    open spec fn sub_req(self, rhs: Rhs) -> bool {
        &&& spec_convert::<Rhs, Self>(rhs) is Ok
        &&& self.0.spec_value() >= spec_convert::<Rhs, Self>(rhs)->Ok_0
    }

    open spec fn sub_spec(self, rhs: Rhs) -> Self {
        KilobitsPerSecond(T::spec_from_nat((self.0.spec_value() - spec_convert::<Rhs, Self>(rhs)->Ok_0) as nat))
    }
}

impl<T: TimeInt, Rhs: FixedPoint> core::ops::Rem<Rhs> for KilobitsPerSecond<T> {
    type Output = Self;

    /// Returns the remainder as the LHS type
    fn rem(self, rhs: Rhs) -> (r: Self) {
        let r = FixedPointOps::rem(self, rhs);
        proof {
            if spec_convert::<Rhs, Self>(rhs) is Ok {
                let v = spec_convert::<Rhs, Self>(rhs)->Ok_0;
                let m: nat = if v > 0 {
                    self.0.spec_value() % v
                } else {
                    0
                };
                T::lemma_range(self.0, self.0);
                T::lemma_from_nat(m);
                T::lemma_range(r.0, T::spec_from_nat(m));
            }
        }
        r
    }
}

impl<T: TimeInt, Rhs: FixedPoint> RemSpecImpl<Rhs> for KilobitsPerSecond<T> {
    open spec fn obeys_rem_spec() -> bool {
        true
    }

    open spec fn rem_req(self, rhs: Rhs) -> bool {
        true
    }

    open spec fn rem_spec(self, rhs: Rhs) -> Self {
        match spec_convert::<Rhs, Self>(rhs) {
            Ok(v) => KilobitsPerSecond(
                T::spec_from_nat(
                    if v > 0 {
                        self.0.spec_value() % v
                    } else {
                        0
                    },
                ),
            ),
            Err(_) => self,
        }
    }
}

impl<SourceInt: TimeInt, DestInt: TimeInt> TryFrom<Generic<SourceInt>> for KilobitsPerSecond<DestInt> {
    type Error = ConversionError;

    /// Construct this unit from a `Generic` value (a scaling factor with a zero denominator is
    /// reported as [`ConversionError::DivByZero`])
    fn try_from(generic: Generic<SourceInt>) -> (r: Result<Self, ConversionError>) {
        if *generic.scaling_factor().denominator() == 0 {
            Err(ConversionError::DivByZero)
        } else {
            let r = Self::try_from_generic(generic);
            proof {
                if r is Ok {
                    DestInt::lemma_range(r->Ok_0.0, r->Ok_0.0);
                    DestInt::lemma_from_nat(r->Ok_0.0.spec_value());
                    DestInt::lemma_range(r->Ok_0.0, DestInt::spec_from_nat(r->Ok_0.0.spec_value()));
                }
            }
            r
        }
    }
}

impl<SourceInt: TimeInt, DestInt: TimeInt> TryFromSpecImpl<Generic<SourceInt>> for KilobitsPerSecond<DestInt> {
    open spec fn obeys_try_from_spec() -> bool {
        true
    }

    open spec fn try_from_spec(generic: Generic<SourceInt>) -> Result<Self, ConversionError> {
        if generic.spec_scaling_factor().spec_denom() == 0 {
            Err(ConversionError::DivByZero)
        } else {
            match spec_from_ticks(
                generic.spec_integer().spec_value(),
                SourceInt::spec_max(),
                generic.spec_scaling_factor(),
                DestInt::spec_max(),
                Fraction::spec_new(1000, 1),
            ) {
                Ok(v) => Ok(KilobitsPerSecond(DestInt::spec_from_nat(v))),
                Err(e) => Err(e),
            }
        }
    }
}

impl<T: TimeInt> From<KilobitsPerSecond<T>> for Generic<T> {
    /// The `Generic` `Rate` of the same integer and scaling factor
    fn from(rate: KilobitsPerSecond<T>) -> (r: Self) {
        Self::new(rate.0, Fraction::new(1000, 1))
    }
}

impl<T: TimeInt> FromSpecImpl<KilobitsPerSecond<T>> for Generic<T> {
    open spec fn obeys_from_spec() -> bool {
        true
    }

    open spec fn from_spec(rate: KilobitsPerSecond<T>) -> Self {
        Generic::spec_new(rate.0, Fraction::spec_new(1000, 1))
    }
}

/// A rate unit type: Bits/s
#[derive(Clone, Copy, Debug, Eq)]
pub struct BitsPerSecond<T: TimeInt = u32>(pub T);

impl<T: TimeInt> BitsPerSecond<T> {
    /// Construct a new value of this unit
    pub fn new(value: T) -> (r: Self)
        ensures
            r.0 == value,
    {
        Self(value)
    }

    /// Construct this unit from a `Generic` value of any scaling factor (with a positive
    /// denominator)
    ///
    /// # Errors
    ///
    /// As [`from_ticks`]
    pub fn try_from_generic<SourceInt: TimeInt>(generic: Generic<SourceInt>) -> (r: Result<
        Self,
        ConversionError,
    >)
        requires
            generic.spec_scaling_factor().spec_denom() > 0,
        ensures
            match spec_from_ticks(
                generic.spec_integer().spec_value(),
                SourceInt::spec_max(),
                generic.spec_scaling_factor(),
                T::spec_max(),
                Self::spec_scaling_factor(),
            ) {
                Ok(v) => r matches Ok(d) && d.0.spec_value() == v,
                Err(e) => r == Err::<Self, ConversionError>(e),
            },
    {
        from_ticks(*generic.integer(), *generic.scaling_factor())
    }
}

impl<T: TimeInt> Rate for BitsPerSecond<T> {

}

impl<T: TimeInt> FixedPoint for BitsPerSecond<T> {
    type T = T;

    open spec fn spec_scaling_factor() -> Fraction {
        Fraction::spec_new(1, 1)
    }

    proof fn lemma_scaling_factor() {
        Fraction::lemma_spec_new(1, 1);
    }

    fn scaling_factor() -> (r: Fraction) {
        Fraction::new(1, 1)
    }

    open spec fn spec_integer(self) -> T {
        self.0
    }

    fn new(value: T) -> (r: Self) {
        Self(value)
    }

    fn integer(&self) -> (r: &T) {
        &self.0
    }
}

impl<T: TimeInt, Rhs: FixedPoint> PartialEq<Rhs> for BitsPerSecond<T> {
    fn eq(&self, rhs: &Rhs) -> (r: bool) {
        FixedPointOps::eq(self, rhs)
    }
}

impl<T: TimeInt, Rhs: FixedPoint> PartialEqSpecImpl<Rhs> for BitsPerSecond<T> {
    open spec fn obeys_eq_spec() -> bool {
        true
    }

    open spec fn eq_spec(&self, rhs: &Rhs) -> bool {
        spec_fixed_eq(*self, *rhs)
    }
}

impl<T: TimeInt, Rhs: FixedPoint> PartialOrd<Rhs> for BitsPerSecond<T> {
    fn partial_cmp(&self, rhs: &Rhs) -> (r: Option<Ordering>) {
        FixedPointOps::partial_cmp(self, rhs)
    }
}

impl<T: TimeInt, Rhs: FixedPoint> PartialOrdSpecImpl<Rhs> for BitsPerSecond<T> {
    open spec fn obeys_partial_cmp_spec() -> bool {
        true
    }

    open spec fn partial_cmp_spec(&self, rhs: &Rhs) -> Option<Ordering> {
        Some(fixed_order(*self, *rhs))
    }
}

impl<T: TimeInt, Rhs: FixedPoint> core::ops::Add<Rhs> for BitsPerSecond<T> {
    type Output = Self;

    /// Returns the sum as the LHS type
    fn add(self, rhs: Rhs) -> (r: Self) {
        let r = FixedPointOps::add(self, rhs);
        proof {
            let v = self.0.spec_value() + spec_convert::<Rhs, Self>(rhs)->Ok_0;
            T::lemma_from_nat(v);
            T::lemma_range(r.0, T::spec_from_nat(v));
        }
        r
    }
}

impl<T: TimeInt, Rhs: FixedPoint> AddSpecImpl<Rhs> for BitsPerSecond<T> {
    open spec fn obeys_add_spec() -> bool {
        true
    }

    open spec fn add_req(self, rhs: Rhs) -> bool {
        &&& spec_convert::<Rhs, Self>(rhs) is Ok
        &&& self.0.spec_value() + spec_convert::<Rhs, Self>(rhs)->Ok_0 <= T::spec_max()
    }

    open spec fn add_spec(self, rhs: Rhs) -> Self {
        BitsPerSecond(T::spec_from_nat(self.0.spec_value() + spec_convert::<Rhs, Self>(rhs)->Ok_0))
    }
}

impl<T: TimeInt, Rhs: FixedPoint> core::ops::Sub<Rhs> for BitsPerSecond<T> {
    type Output = Self;

    /// Returns the difference as the LHS type
    fn sub(self, rhs: Rhs) -> (r: Self) {
        let r = FixedPointOps::sub(self, rhs);
        proof {
            let v = (self.0.spec_value() - spec_convert::<Rhs, Self>(rhs)->Ok_0) as nat;
            T::lemma_range(self.0, self.0);
            T::lemma_from_nat(v);
            T::lemma_range(r.0, T::spec_from_nat(v));
        }
        r
    }
}

impl<T: TimeInt, Rhs: FixedPoint> SubSpecImpl<Rhs> for BitsPerSecond<T> {
    open spec fn obeys_sub_spec() -> bool {
        true
    }

    open spec fn sub_req(self, rhs: Rhs) -> bool {
        &&& spec_convert::<Rhs, Self>(rhs) is Ok
        &&& self.0.spec_value() >= spec_convert::<Rhs, Self>(rhs)->Ok_0
    }

    open spec fn sub_spec(self, rhs: Rhs) -> Self {
        BitsPerSecond(T::spec_from_nat((self.0.spec_value() - spec_convert::<Rhs, Self>(rhs)->Ok_0) as nat))
    }
}

impl<T: TimeInt, Rhs: FixedPoint> core::ops::Rem<Rhs> for BitsPerSecond<T> {
    type Output = Self;

    /// Returns the remainder as the LHS type
    fn rem(self, rhs: Rhs) -> (r: Self) {
        let r = FixedPointOps::rem(self, rhs);
        proof {
            if spec_convert::<Rhs, Self>(rhs) is Ok {
                let v = spec_convert::<Rhs, Self>(rhs)->Ok_0;
                let m: nat = if v > 0 {
                    self.0.spec_value() % v
                } else {
                    0
                };
                T::lemma_range(self.0, self.0);
                T::lemma_from_nat(m);
                T::lemma_range(r.0, T::spec_from_nat(m));
            }
        }
        r
    }
}

impl<T: TimeInt, Rhs: FixedPoint> RemSpecImpl<Rhs> for BitsPerSecond<T> {
    open spec fn obeys_rem_spec() -> bool {
        true
    }

    open spec fn rem_req(self, rhs: Rhs) -> bool {
        true
    }

    open spec fn rem_spec(self, rhs: Rhs) -> Self {
        match spec_convert::<Rhs, Self>(rhs) {
            Ok(v) => BitsPerSecond(
                T::spec_from_nat(
                    if v > 0 {
                        self.0.spec_value() % v
                    } else {
                        0
                    },
                ),
            ),
            Err(_) => self,
        }
    }
}

impl<SourceInt: TimeInt, DestInt: TimeInt> TryFrom<Generic<SourceInt>> for BitsPerSecond<DestInt> {
    type Error = ConversionError;

    /// Construct this unit from a `Generic` value (a scaling factor with a zero denominator is
    /// reported as [`ConversionError::DivByZero`])
    fn try_from(generic: Generic<SourceInt>) -> (r: Result<Self, ConversionError>) {
        if *generic.scaling_factor().denominator() == 0 {
            Err(ConversionError::DivByZero)
        } else {
            let r = Self::try_from_generic(generic);
            proof {
                if r is Ok {
                    DestInt::lemma_range(r->Ok_0.0, r->Ok_0.0);
                    DestInt::lemma_from_nat(r->Ok_0.0.spec_value());
                    DestInt::lemma_range(r->Ok_0.0, DestInt::spec_from_nat(r->Ok_0.0.spec_value()));
                }
            }
            r
        }
    }
}

impl<SourceInt: TimeInt, DestInt: TimeInt> TryFromSpecImpl<Generic<SourceInt>> for BitsPerSecond<DestInt> {
    open spec fn obeys_try_from_spec() -> bool {
        true
    }

    open spec fn try_from_spec(generic: Generic<SourceInt>) -> Result<Self, ConversionError> {
        if generic.spec_scaling_factor().spec_denom() == 0 {
            Err(ConversionError::DivByZero)
        } else {
            match spec_from_ticks(
                generic.spec_integer().spec_value(),
                SourceInt::spec_max(),
                generic.spec_scaling_factor(),
                DestInt::spec_max(),
                Fraction::spec_new(1, 1),
            ) {
                Ok(v) => Ok(BitsPerSecond(DestInt::spec_from_nat(v))),
                Err(e) => Err(e),
            }
        }
    }
}

impl<T: TimeInt> From<BitsPerSecond<T>> for Generic<T> {
    /// The `Generic` `Rate` of the same integer and scaling factor
    fn from(rate: BitsPerSecond<T>) -> (r: Self) {
        Self::new(rate.0, Fraction::new(1, 1))
    }
}

impl<T: TimeInt> FromSpecImpl<BitsPerSecond<T>> for Generic<T> {
    open spec fn obeys_from_spec() -> bool {
        true
    }

    open spec fn from_spec(rate: BitsPerSecond<T>) -> Self {
        Generic::spec_new(rate.0, Fraction::spec_new(1, 1))
    }
}

/// A rate unit type: Baud × 1,048,576
#[derive(Clone, Copy, Debug, Eq)]
pub struct Mebibaud<T: TimeInt = u32>(pub T);

impl<T: TimeInt> Mebibaud<T> {
    /// Construct a new value of this unit
    pub fn new(value: T) -> (r: Self)
        ensures
            r.0 == value,
    {
        Self(value)
    }

    /// Construct this unit from a `Generic` value of any scaling factor (with a positive
    /// denominator)
    ///
    /// # Errors
    ///
    /// As [`from_ticks`]
    pub fn try_from_generic<SourceInt: TimeInt>(generic: Generic<SourceInt>) -> (r: Result<
        Self,
        ConversionError,
    >)
        requires
            generic.spec_scaling_factor().spec_denom() > 0,
        ensures
            match spec_from_ticks(
                generic.spec_integer().spec_value(),
                SourceInt::spec_max(),
                generic.spec_scaling_factor(),
                T::spec_max(),
                Self::spec_scaling_factor(),
            ) {
                Ok(v) => r matches Ok(d) && d.0.spec_value() == v,
                Err(e) => r == Err::<Self, ConversionError>(e),
            },
    {
        from_ticks(*generic.integer(), *generic.scaling_factor())
    }
}

impl<T: TimeInt> Rate for Mebibaud<T> {

}

impl<T: TimeInt> FixedPoint for Mebibaud<T> {
    type T = T;

    open spec fn spec_scaling_factor() -> Fraction {
        Fraction::spec_new(1048576, 1)
    }

    proof fn lemma_scaling_factor() {
        Fraction::lemma_spec_new(1048576, 1);
    }

    fn scaling_factor() -> (r: Fraction) {
        Fraction::new(1048576, 1)
    }

    open spec fn spec_integer(self) -> T {
        self.0
    }

    fn new(value: T) -> (r: Self) {
        Self(value)
    }

    fn integer(&self) -> (r: &T) {
        &self.0
    }
}

impl<T: TimeInt, Rhs: FixedPoint> PartialEq<Rhs> for Mebibaud<T> {
    fn eq(&self, rhs: &Rhs) -> (r: bool) {
        FixedPointOps::eq(self, rhs)
    }
}

impl<T: TimeInt, Rhs: FixedPoint> PartialEqSpecImpl<Rhs> for Mebibaud<T> {
    open spec fn obeys_eq_spec() -> bool {
        true
    }

    open spec fn eq_spec(&self, rhs: &Rhs) -> bool {
        spec_fixed_eq(*self, *rhs)
    }
}

impl<T: TimeInt, Rhs: FixedPoint> PartialOrd<Rhs> for Mebibaud<T> {
    fn partial_cmp(&self, rhs: &Rhs) -> (r: Option<Ordering>) {
        FixedPointOps::partial_cmp(self, rhs)
    }
}

impl<T: TimeInt, Rhs: FixedPoint> PartialOrdSpecImpl<Rhs> for Mebibaud<T> {
    open spec fn obeys_partial_cmp_spec() -> bool {
        true
    }

    open spec fn partial_cmp_spec(&self, rhs: &Rhs) -> Option<Ordering> {
        Some(fixed_order(*self, *rhs))
    }
}

impl<T: TimeInt, Rhs: FixedPoint> core::ops::Add<Rhs> for Mebibaud<T> {
    type Output = Self;

    /// Returns the sum as the LHS type
    fn add(self, rhs: Rhs) -> (r: Self) {
        let r = FixedPointOps::add(self, rhs);
        proof {
            let v = self.0.spec_value() + spec_convert::<Rhs, Self>(rhs)->Ok_0;
            T::lemma_from_nat(v);
            T::lemma_range(r.0, T::spec_from_nat(v));
        }
        r
    }
}

impl<T: TimeInt, Rhs: FixedPoint> AddSpecImpl<Rhs> for Mebibaud<T> {
    open spec fn obeys_add_spec() -> bool {
        true
    }

    open spec fn add_req(self, rhs: Rhs) -> bool {
        &&& spec_convert::<Rhs, Self>(rhs) is Ok
        &&& self.0.spec_value() + spec_convert::<Rhs, Self>(rhs)->Ok_0 <= T::spec_max()
    }

    open spec fn add_spec(self, rhs: Rhs) -> Self {
        Mebibaud(T::spec_from_nat(self.0.spec_value() + spec_convert::<Rhs, Self>(rhs)->Ok_0))
    }
}

impl<T: TimeInt, Rhs: FixedPoint> core::ops::Sub<Rhs> for Mebibaud<T> {
    type Output = Self;

    /// Returns the difference as the LHS type
    fn sub(self, rhs: Rhs) -> (r: Self) {
        let r = FixedPointOps::sub(self, rhs);
        proof {
            let v = (self.0.spec_value() - spec_convert::<Rhs, Self>(rhs)->Ok_0) as nat;
            T::lemma_range(self.0, self.0);
            T::lemma_from_nat(v);
            T::lemma_range(r.0, T::spec_from_nat(v));
        }
        r
    }
}

impl<T: TimeInt, Rhs: FixedPoint> SubSpecImpl<Rhs> for Mebibaud<T> {
    open spec fn obeys_sub_spec() -> bool {
        true
    }

    open spec fn sub_req(self, rhs: Rhs) -> bool {
        &&& spec_convert::<Rhs, Self>(rhs) is Ok
        &&& self.0.spec_value() >= spec_convert::<Rhs, Self>(rhs)->Ok_0
    }

    open spec fn sub_spec(self, rhs: Rhs) -> Self {
        Mebibaud(T::spec_from_nat((self.0.spec_value() - spec_convert::<Rhs, Self>(rhs)->Ok_0) as nat))
    }
}

impl<T: TimeInt, Rhs: FixedPoint> core::ops::Rem<Rhs> for Mebibaud<T> {
    type Output = Self;

    /// Returns the remainder as the LHS type
    fn rem(self, rhs: Rhs) -> (r: Self) {
        let r = FixedPointOps::rem(self, rhs);
        proof {
            if spec_convert::<Rhs, Self>(rhs) is Ok {
                let v = spec_convert::<Rhs, Self>(rhs)->Ok_0;
                let m: nat = if v > 0 {
                    self.0.spec_value() % v
                } else {
                    0
                };
                T::lemma_range(self.0, self.0);
                T::lemma_from_nat(m);
                T::lemma_range(r.0, T::spec_from_nat(m));
            }
        }
        r
    }
}

impl<T: TimeInt, Rhs: FixedPoint> RemSpecImpl<Rhs> for Mebibaud<T> {
    open spec fn obeys_rem_spec() -> bool {
        true
    }

    open spec fn rem_req(self, rhs: Rhs) -> bool {
        true
    }

    open spec fn rem_spec(self, rhs: Rhs) -> Self {
        match spec_convert::<Rhs, Self>(rhs) {
            Ok(v) => Mebibaud(
                T::spec_from_nat(
                    if v > 0 {
                        self.0.spec_value() % v
                    } else {
                        0
                    },
                ),
            ),
            Err(_) => self,
        }
    }
}

impl<SourceInt: TimeInt, DestInt: TimeInt> TryFrom<Generic<SourceInt>> for Mebibaud<DestInt> {
    type Error = ConversionError;

    /// Construct this unit from a `Generic` value (a scaling factor with a zero denominator is
    /// reported as [`ConversionError::DivByZero`])
    fn try_from(generic: Generic<SourceInt>) -> (r: Result<Self, ConversionError>) {
        if *generic.scaling_factor().denominator() == 0 {
            Err(ConversionError::DivByZero)
        } else {
            let r = Self::try_from_generic(generic);
            proof {
                if r is Ok {
                    DestInt::lemma_range(r->Ok_0.0, r->Ok_0.0);
                    DestInt::lemma_from_nat(r->Ok_0.0.spec_value());
                    DestInt::lemma_range(r->Ok_0.0, DestInt::spec_from_nat(r->Ok_0.0.spec_value()));
                }
            }
            r
        }
    }
}

impl<SourceInt: TimeInt, DestInt: TimeInt> TryFromSpecImpl<Generic<SourceInt>> for Mebibaud<DestInt> {
    open spec fn obeys_try_from_spec() -> bool {
        true
    }

    open spec fn try_from_spec(generic: Generic<SourceInt>) -> Result<Self, ConversionError> {
        if generic.spec_scaling_factor().spec_denom() == 0 {
            Err(ConversionError::DivByZero)
        } else {
            match spec_from_ticks(
                generic.spec_integer().spec_value(),
                SourceInt::spec_max(),
                generic.spec_scaling_factor(),
                DestInt::spec_max(),
                Fraction::spec_new(1048576, 1),
            ) {
                Ok(v) => Ok(Mebibaud(DestInt::spec_from_nat(v))),
                Err(e) => Err(e),
            }
        }
    }
}

impl<T: TimeInt> From<Mebibaud<T>> for Generic<T> {
    /// The `Generic` `Rate` of the same integer and scaling factor
    fn from(rate: Mebibaud<T>) -> (r: Self) {
        Self::new(rate.0, Fraction::new(1048576, 1))
    }
}

impl<T: TimeInt> FromSpecImpl<Mebibaud<T>> for Generic<T> {
    open spec fn obeys_from_spec() -> bool {
        true
    }

    open spec fn from_spec(rate: Mebibaud<T>) -> Self {
        Generic::spec_new(rate.0, Fraction::spec_new(1048576, 1))
    }
}

/// A rate unit type: Baud × 1,000,000
#[derive(Clone, Copy, Debug, Eq)]
pub struct Megabaud<T: TimeInt = u32>(pub T);

impl<T: TimeInt> Megabaud<T> {
    /// Construct a new value of this unit
    pub fn new(value: T) -> (r: Self)
        ensures
            r.0 == value,
    {
        Self(value)
    }

    /// Construct this unit from a `Generic` value of any scaling factor (with a positive
    /// denominator)
    ///
    /// # Errors
    ///
    /// As [`from_ticks`]
    pub fn try_from_generic<SourceInt: TimeInt>(generic: Generic<SourceInt>) -> (r: Result<
        Self,
        ConversionError,
    >)
        requires
            generic.spec_scaling_factor().spec_denom() > 0,
        ensures
            match spec_from_ticks(
                generic.spec_integer().spec_value(),
                SourceInt::spec_max(),
                generic.spec_scaling_factor(),
                T::spec_max(),
                Self::spec_scaling_factor(),
            ) {
                Ok(v) => r matches Ok(d) && d.0.spec_value() == v,
                Err(e) => r == Err::<Self, ConversionError>(e),
            },
    {
        from_ticks(*generic.integer(), *generic.scaling_factor())
    }
}

impl<T: TimeInt> Rate for Megabaud<T> {

}

impl<T: TimeInt> FixedPoint for Megabaud<T> {
    type T = T;

    open spec fn spec_scaling_factor() -> Fraction {
        Fraction::spec_new(1000000, 1)
    }

    proof fn lemma_scaling_factor() {
        Fraction::lemma_spec_new(1000000, 1);
    }

    fn scaling_factor() -> (r: Fraction) {
        Fraction::new(1000000, 1)
    }

    open spec fn spec_integer(self) -> T {
        self.0
    }

    fn new(value: T) -> (r: Self) {
        Self(value)
    }

    fn integer(&self) -> (r: &T) {
        &self.0
    }
}

impl<T: TimeInt, Rhs: FixedPoint> PartialEq<Rhs> for Megabaud<T> {
    fn eq(&self, rhs: &Rhs) -> (r: bool) {
        FixedPointOps::eq(self, rhs)
    }
}

impl<T: TimeInt, Rhs: FixedPoint> PartialEqSpecImpl<Rhs> for Megabaud<T> {
    open spec fn obeys_eq_spec() -> bool {
        true
    }

    open spec fn eq_spec(&self, rhs: &Rhs) -> bool {
        spec_fixed_eq(*self, *rhs)
    }
}

impl<T: TimeInt, Rhs: FixedPoint> PartialOrd<Rhs> for Megabaud<T> {
    fn partial_cmp(&self, rhs: &Rhs) -> (r: Option<Ordering>) {
        FixedPointOps::partial_cmp(self, rhs)
    }
}

impl<T: TimeInt, Rhs: FixedPoint> PartialOrdSpecImpl<Rhs> for Megabaud<T> {
    open spec fn obeys_partial_cmp_spec() -> bool {
        true
    }

    open spec fn partial_cmp_spec(&self, rhs: &Rhs) -> Option<Ordering> {
        Some(fixed_order(*self, *rhs))
    }
}

impl<T: TimeInt, Rhs: FixedPoint> core::ops::Add<Rhs> for Megabaud<T> {
    type Output = Self;

    /// Returns the sum as the LHS type
    fn add(self, rhs: Rhs) -> (r: Self) {
        let r = FixedPointOps::add(self, rhs);
        proof {
            let v = self.0.spec_value() + spec_convert::<Rhs, Self>(rhs)->Ok_0;
            T::lemma_from_nat(v);
            T::lemma_range(r.0, T::spec_from_nat(v));
        }
        r
    }
}

impl<T: TimeInt, Rhs: FixedPoint> AddSpecImpl<Rhs> for Megabaud<T> {
    open spec fn obeys_add_spec() -> bool {
        true
    }

    open spec fn add_req(self, rhs: Rhs) -> bool {
        &&& spec_convert::<Rhs, Self>(rhs) is Ok
        &&& self.0.spec_value() + spec_convert::<Rhs, Self>(rhs)->Ok_0 <= T::spec_max()
    }

    open spec fn add_spec(self, rhs: Rhs) -> Self {
        Megabaud(T::spec_from_nat(self.0.spec_value() + spec_convert::<Rhs, Self>(rhs)->Ok_0))
    }
}

impl<T: TimeInt, Rhs: FixedPoint> core::ops::Sub<Rhs> for Megabaud<T> {
    type Output = Self;

    /// Returns the difference as the LHS type
    fn sub(self, rhs: Rhs) -> (r: Self) {
        let r = FixedPointOps::sub(self, rhs);
        proof {
            let v = (self.0.spec_value() - spec_convert::<Rhs, Self>(rhs)->Ok_0) as nat;
            T::lemma_range(self.0, self.0);
            T::lemma_from_nat(v);
            T::lemma_range(r.0, T::spec_from_nat(v));
        }
        r
    }
}

impl<T: TimeInt, Rhs: FixedPoint> SubSpecImpl<Rhs> for Megabaud<T> {
    open spec fn obeys_sub_spec() -> bool {
        true
    }

    open spec fn sub_req(self, rhs: Rhs) -> bool {
        &&& spec_convert::<Rhs, Self>(rhs) is Ok
        &&& self.0.spec_value() >= spec_convert::<Rhs, Self>(rhs)->Ok_0
    }

    open spec fn sub_spec(self, rhs: Rhs) -> Self {
        Megabaud(T::spec_from_nat((self.0.spec_value() - spec_convert::<Rhs, Self>(rhs)->Ok_0) as nat))
    }
}

impl<T: TimeInt, Rhs: FixedPoint> core::ops::Rem<Rhs> for Megabaud<T> {
    type Output = Self;

    /// Returns the remainder as the LHS type
    fn rem(self, rhs: Rhs) -> (r: Self) {
        let r = FixedPointOps::rem(self, rhs);
        proof {
            if spec_convert::<Rhs, Self>(rhs) is Ok {
                let v = spec_convert::<Rhs, Self>(rhs)->Ok_0;
                let m: nat = if v > 0 {
                    self.0.spec_value() % v
                } else {
                    0
                };
                T::lemma_range(self.0, self.0);
                T::lemma_from_nat(m);
                T::lemma_range(r.0, T::spec_from_nat(m));
            }
        }
        r
    }
}

impl<T: TimeInt, Rhs: FixedPoint> RemSpecImpl<Rhs> for Megabaud<T> {
    open spec fn obeys_rem_spec() -> bool {
        true
    }

    open spec fn rem_req(self, rhs: Rhs) -> bool {
        true
    }

    open spec fn rem_spec(self, rhs: Rhs) -> Self {
        match spec_convert::<Rhs, Self>(rhs) {
            Ok(v) => Megabaud(
                T::spec_from_nat(
                    if v > 0 {
                        self.0.spec_value() % v
                    } else {
                        0
                    },
                ),
            ),
            Err(_) => self,
        }
    }
}

impl<SourceInt: TimeInt, DestInt: TimeInt> TryFrom<Generic<SourceInt>> for Megabaud<DestInt> {
    type Error = ConversionError;

    /// Construct this unit from a `Generic` value (a scaling factor with a zero denominator is
    /// reported as [`ConversionError::DivByZero`])
    fn try_from(generic: Generic<SourceInt>) -> (r: Result<Self, ConversionError>) {
        if *generic.scaling_factor().denominator() == 0 {
            Err(ConversionError::DivByZero)
        } else {
            let r = Self::try_from_generic(generic);
            proof {
                if r is Ok {
                    DestInt::lemma_range(r->Ok_0.0, r->Ok_0.0);
                    DestInt::lemma_from_nat(r->Ok_0.0.spec_value());
                    DestInt::lemma_range(r->Ok_0.0, DestInt::spec_from_nat(r->Ok_0.0.spec_value()));
                }
            }
            r
        }
    }
}

impl<SourceInt: TimeInt, DestInt: TimeInt> TryFromSpecImpl<Generic<SourceInt>> for Megabaud<DestInt> {
    open spec fn obeys_try_from_spec() -> bool {
        true
    }

    open spec fn try_from_spec(generic: Generic<SourceInt>) -> Result<Self, ConversionError> {
        if generic.spec_scaling_factor().spec_denom() == 0 {
            Err(ConversionError::DivByZero)
        } else {
            match spec_from_ticks(
                generic.spec_integer().spec_value(),
                SourceInt::spec_max(),
                generic.spec_scaling_factor(),
                DestInt::spec_max(),
                Fraction::spec_new(1000000, 1),
            ) {
                Ok(v) => Ok(Megabaud(DestInt::spec_from_nat(v))),
                Err(e) => Err(e),
            }
        }
    }
}

impl<T: TimeInt> From<Megabaud<T>> for Generic<T> {
    /// The `Generic` `Rate` of the same integer and scaling factor
    fn from(rate: Megabaud<T>) -> (r: Self) {
        Self::new(rate.0, Fraction::new(1000000, 1))
    }
}

impl<T: TimeInt> FromSpecImpl<Megabaud<T>> for Generic<T> {
    open spec fn obeys_from_spec() -> bool {
        true
    }

    open spec fn from_spec(rate: Megabaud<T>) -> Self {
        Generic::spec_new(rate.0, Fraction::spec_new(1000000, 1))
    }
}

/// A rate unit type: Baud × 1,024
#[derive(Clone, Copy, Debug, Eq)]
pub struct Kibibaud<T: TimeInt = u32>(pub T);

impl<T: TimeInt> Kibibaud<T> {
    /// Construct a new value of this unit
    pub fn new(value: T) -> (r: Self)
        ensures
            r.0 == value,
    {
        Self(value)
    }

    /// Construct this unit from a `Generic` value of any scaling factor (with a positive
    /// denominator)
    ///
    /// # Errors
    ///
    /// As [`from_ticks`]
    pub fn try_from_generic<SourceInt: TimeInt>(generic: Generic<SourceInt>) -> (r: Result<
        Self,
        ConversionError,
    >)
        requires
            generic.spec_scaling_factor().spec_denom() > 0,
        ensures
            match spec_from_ticks(
                generic.spec_integer().spec_value(),
                SourceInt::spec_max(),
                generic.spec_scaling_factor(),
                T::spec_max(),
                Self::spec_scaling_factor(),
            ) {
                Ok(v) => r matches Ok(d) && d.0.spec_value() == v,
                Err(e) => r == Err::<Self, ConversionError>(e),
            },
    {
        from_ticks(*generic.integer(), *generic.scaling_factor())
    }
}

impl<T: TimeInt> Rate for Kibibaud<T> {

}

impl<T: TimeInt> FixedPoint for Kibibaud<T> {
    type T = T;

    open spec fn spec_scaling_factor() -> Fraction {
        Fraction::spec_new(1024, 1)
    }

    proof fn lemma_scaling_factor() {
        Fraction::lemma_spec_new(1024, 1);
    }

    fn scaling_factor() -> (r: Fraction) {
        Fraction::new(1024, 1)
    }

    open spec fn spec_integer(self) -> T {
        self.0
    }

    fn new(value: T) -> (r: Self) {
        Self(value)
    }

    fn integer(&self) -> (r: &T) {
        &self.0
    }
}

impl<T: TimeInt, Rhs: FixedPoint> PartialEq<Rhs> for Kibibaud<T> {
    fn eq(&self, rhs: &Rhs) -> (r: bool) {
        FixedPointOps::eq(self, rhs)
    }
}

impl<T: TimeInt, Rhs: FixedPoint> PartialEqSpecImpl<Rhs> for Kibibaud<T> {
    open spec fn obeys_eq_spec() -> bool {
        true
    }

    open spec fn eq_spec(&self, rhs: &Rhs) -> bool {
        spec_fixed_eq(*self, *rhs)
    }
}

impl<T: TimeInt, Rhs: FixedPoint> PartialOrd<Rhs> for Kibibaud<T> {
    fn partial_cmp(&self, rhs: &Rhs) -> (r: Option<Ordering>) {
        FixedPointOps::partial_cmp(self, rhs)
    }
}

impl<T: TimeInt, Rhs: FixedPoint> PartialOrdSpecImpl<Rhs> for Kibibaud<T> {
    open spec fn obeys_partial_cmp_spec() -> bool {
        true
    }

    open spec fn partial_cmp_spec(&self, rhs: &Rhs) -> Option<Ordering> {
        Some(fixed_order(*self, *rhs))
    }
}

impl<T: TimeInt, Rhs: FixedPoint> core::ops::Add<Rhs> for Kibibaud<T> {
    type Output = Self;

    /// Returns the sum as the LHS type
    fn add(self, rhs: Rhs) -> (r: Self) {
        let r = FixedPointOps::add(self, rhs);
        proof {
            let v = self.0.spec_value() + spec_convert::<Rhs, Self>(rhs)->Ok_0;
            T::lemma_from_nat(v);
            T::lemma_range(r.0, T::spec_from_nat(v));
        }
        r
    }
}

impl<T: TimeInt, Rhs: FixedPoint> AddSpecImpl<Rhs> for Kibibaud<T> {
    open spec fn obeys_add_spec() -> bool {
        true
    }

    open spec fn add_req(self, rhs: Rhs) -> bool {
        &&& spec_convert::<Rhs, Self>(rhs) is Ok
        &&& self.0.spec_value() + spec_convert::<Rhs, Self>(rhs)->Ok_0 <= T::spec_max()
    }

    open spec fn add_spec(self, rhs: Rhs) -> Self {
        Kibibaud(T::spec_from_nat(self.0.spec_value() + spec_convert::<Rhs, Self>(rhs)->Ok_0))
    }
}

impl<T: TimeInt, Rhs: FixedPoint> core::ops::Sub<Rhs> for Kibibaud<T> {
    type Output = Self;

    /// Returns the difference as the LHS type
    fn sub(self, rhs: Rhs) -> (r: Self) {
        let r = FixedPointOps::sub(self, rhs);
        proof {
            let v = (self.0.spec_value() - spec_convert::<Rhs, Self>(rhs)->Ok_0) as nat;
            T::lemma_range(self.0, self.0);
            T::lemma_from_nat(v);
            T::lemma_range(r.0, T::spec_from_nat(v));
        }
        r
    }
}

impl<T: TimeInt, Rhs: FixedPoint> SubSpecImpl<Rhs> for Kibibaud<T> {
    open spec fn obeys_sub_spec() -> bool {
        true
    }

    open spec fn sub_req(self, rhs: Rhs) -> bool {
        &&& spec_convert::<Rhs, Self>(rhs) is Ok
        &&& self.0.spec_value() >= spec_convert::<Rhs, Self>(rhs)->Ok_0
    }

    open spec fn sub_spec(self, rhs: Rhs) -> Self {
        Kibibaud(T::spec_from_nat((self.0.spec_value() - spec_convert::<Rhs, Self>(rhs)->Ok_0) as nat))
    }
}

impl<T: TimeInt, Rhs: FixedPoint> core::ops::Rem<Rhs> for Kibibaud<T> {
    type Output = Self;

    /// Returns the remainder as the LHS type
    fn rem(self, rhs: Rhs) -> (r: Self) {
        let r = FixedPointOps::rem(self, rhs);
        proof {
            if spec_convert::<Rhs, Self>(rhs) is Ok {
                let v = spec_convert::<Rhs, Self>(rhs)->Ok_0;
                let m: nat = if v > 0 {
                    self.0.spec_value() % v
                } else {
                    0
                };
                T::lemma_range(self.0, self.0);
                T::lemma_from_nat(m);
                T::lemma_range(r.0, T::spec_from_nat(m));
            }
        }
        r
    }
}

impl<T: TimeInt, Rhs: FixedPoint> RemSpecImpl<Rhs> for Kibibaud<T> {
    open spec fn obeys_rem_spec() -> bool {
        true
    }

    open spec fn rem_req(self, rhs: Rhs) -> bool {
        true
    }

    open spec fn rem_spec(self, rhs: Rhs) -> Self {
        match spec_convert::<Rhs, Self>(rhs) {
            Ok(v) => Kibibaud(
                T::spec_from_nat(
                    if v > 0 {
                        self.0.spec_value() % v
                    } else {
                        0
                    },
                ),
            ),
            Err(_) => self,
        }
    }
}

impl<SourceInt: TimeInt, DestInt: TimeInt> TryFrom<Generic<SourceInt>> for Kibibaud<DestInt> {
    type Error = ConversionError;

    /// Construct this unit from a `Generic` value (a scaling factor with a zero denominator is
    /// reported as [`ConversionError::DivByZero`])
    fn try_from(generic: Generic<SourceInt>) -> (r: Result<Self, ConversionError>) {
        if *generic.scaling_factor().denominator() == 0 {
            Err(ConversionError::DivByZero)
        } else {
            let r = Self::try_from_generic(generic);
            proof {
                if r is Ok {
                    DestInt::lemma_range(r->Ok_0.0, r->Ok_0.0);
                    DestInt::lemma_from_nat(r->Ok_0.0.spec_value());
                    DestInt::lemma_range(r->Ok_0.0, DestInt::spec_from_nat(r->Ok_0.0.spec_value()));
                }
            }
            r
        }
    }
}

impl<SourceInt: TimeInt, DestInt: TimeInt> TryFromSpecImpl<Generic<SourceInt>> for Kibibaud<DestInt> {
    open spec fn obeys_try_from_spec() -> bool {
        true
    }

    open spec fn try_from_spec(generic: Generic<SourceInt>) -> Result<Self, ConversionError> {
        if generic.spec_scaling_factor().spec_denom() == 0 {
            Err(ConversionError::DivByZero)
        } else {
            match spec_from_ticks(
                generic.spec_integer().spec_value(),
                SourceInt::spec_max(),
                generic.spec_scaling_factor(),
                DestInt::spec_max(),
                Fraction::spec_new(1024, 1),
            ) {
                Ok(v) => Ok(Kibibaud(DestInt::spec_from_nat(v))),
                Err(e) => Err(e),
            }
        }
    }
}

impl<T: TimeInt> From<Kibibaud<T>> for Generic<T> {
    /// The `Generic` `Rate` of the same integer and scaling factor
    fn from(rate: Kibibaud<T>) -> (r: Self) {
        Self::new(rate.0, Fraction::new(1024, 1))
    }
}

impl<T: TimeInt> FromSpecImpl<Kibibaud<T>> for Generic<T> {
    open spec fn obeys_from_spec() -> bool {
        true
    }

    open spec fn from_spec(rate: Kibibaud<T>) -> Self {
        Generic::spec_new(rate.0, Fraction::spec_new(1024, 1))
    }
}

/// A rate unit type: Baud × 1,000
#[derive(Clone, Copy, Debug, Eq)]
pub struct Kilobaud<T: TimeInt = u32>(pub T);

impl<T: TimeInt> Kilobaud<T> {
    /// Construct a new value of this unit
    pub fn new(value: T) -> (r: Self)
        ensures
            r.0 == value,
    {
        Self(value)
    }

    /// Construct this unit from a `Generic` value of any scaling factor (with a positive
    /// denominator)
    ///
    /// # Errors
    ///
    /// As [`from_ticks`]
    pub fn try_from_generic<SourceInt: TimeInt>(generic: Generic<SourceInt>) -> (r: Result<
        Self,
        ConversionError,
    >)
        requires
            generic.spec_scaling_factor().spec_denom() > 0,
        ensures
            match spec_from_ticks(
                generic.spec_integer().spec_value(),
                SourceInt::spec_max(),
                generic.spec_scaling_factor(),
                T::spec_max(),
                Self::spec_scaling_factor(),
            ) {
                Ok(v) => r matches Ok(d) && d.0.spec_value() == v,
                Err(e) => r == Err::<Self, ConversionError>(e),
            },
    {
        from_ticks(*generic.integer(), *generic.scaling_factor())
    }
}

impl<T: TimeInt> Rate for Kilobaud<T> {

}

impl<T: TimeInt> FixedPoint for Kilobaud<T> {
    type T = T;

    open spec fn spec_scaling_factor() -> Fraction {
        Fraction::spec_new(1000, 1)
    }

    proof fn lemma_scaling_factor() {
        Fraction::lemma_spec_new(1000, 1);
    }

    fn scaling_factor() -> (r: Fraction) {
        Fraction::new(1000, 1)
    }

    open spec fn spec_integer(self) -> T {
        self.0
    }

    fn new(value: T) -> (r: Self) {
        Self(value)
    }

    fn integer(&self) -> (r: &T) {
        &self.0
    }
}

impl<T: TimeInt, Rhs: FixedPoint> PartialEq<Rhs> for Kilobaud<T> {
    fn eq(&self, rhs: &Rhs) -> (r: bool) {
        FixedPointOps::eq(self, rhs)
    }
}

impl<T: TimeInt, Rhs: FixedPoint> PartialEqSpecImpl<Rhs> for Kilobaud<T> {
    open spec fn obeys_eq_spec() -> bool {
        true
    }

    open spec fn eq_spec(&self, rhs: &Rhs) -> bool {
        spec_fixed_eq(*self, *rhs)
    }
}

impl<T: TimeInt, Rhs: FixedPoint> PartialOrd<Rhs> for Kilobaud<T> {
    fn partial_cmp(&self, rhs: &Rhs) -> (r: Option<Ordering>) {
        FixedPointOps::partial_cmp(self, rhs)
    }
}

impl<T: TimeInt, Rhs: FixedPoint> PartialOrdSpecImpl<Rhs> for Kilobaud<T> {
    open spec fn obeys_partial_cmp_spec() -> bool {
        true
    }

    open spec fn partial_cmp_spec(&self, rhs: &Rhs) -> Option<Ordering> {
        Some(fixed_order(*self, *rhs))
    }
}

impl<T: TimeInt, Rhs: FixedPoint> core::ops::Add<Rhs> for Kilobaud<T> {
    type Output = Self;

    /// Returns the sum as the LHS type
    fn add(self, rhs: Rhs) -> (r: Self) {
        let r = FixedPointOps::add(self, rhs);
        proof {
            let v = self.0.spec_value() + spec_convert::<Rhs, Self>(rhs)->Ok_0;
            T::lemma_from_nat(v);
            T::lemma_range(r.0, T::spec_from_nat(v));
        }
        r
    }
}

impl<T: TimeInt, Rhs: FixedPoint> AddSpecImpl<Rhs> for Kilobaud<T> {
    open spec fn obeys_add_spec() -> bool {
        true
    }

    open spec fn add_req(self, rhs: Rhs) -> bool {
        &&& spec_convert::<Rhs, Self>(rhs) is Ok
        &&& self.0.spec_value() + spec_convert::<Rhs, Self>(rhs)->Ok_0 <= T::spec_max()
    }

    open spec fn add_spec(self, rhs: Rhs) -> Self {
        Kilobaud(T::spec_from_nat(self.0.spec_value() + spec_convert::<Rhs, Self>(rhs)->Ok_0))
    }
}

impl<T: TimeInt, Rhs: FixedPoint> core::ops::Sub<Rhs> for Kilobaud<T> {
    type Output = Self;

    /// Returns the difference as the LHS type
    fn sub(self, rhs: Rhs) -> (r: Self) {
        let r = FixedPointOps::sub(self, rhs);
        proof {
            let v = (self.0.spec_value() - spec_convert::<Rhs, Self>(rhs)->Ok_0) as nat;
            T::lemma_range(self.0, self.0);
            T::lemma_from_nat(v);
            T::lemma_range(r.0, T::spec_from_nat(v));
        }
        r
    }
}

impl<T: TimeInt, Rhs: FixedPoint> SubSpecImpl<Rhs> for Kilobaud<T> {
    open spec fn obeys_sub_spec() -> bool {
        true
    }

    open spec fn sub_req(self, rhs: Rhs) -> bool {
        &&& spec_convert::<Rhs, Self>(rhs) is Ok
        &&& self.0.spec_value() >= spec_convert::<Rhs, Self>(rhs)->Ok_0
    }

    open spec fn sub_spec(self, rhs: Rhs) -> Self {
        Kilobaud(T::spec_from_nat((self.0.spec_value() - spec_convert::<Rhs, Self>(rhs)->Ok_0) as nat))
    }
}

impl<T: TimeInt, Rhs: FixedPoint> core::ops::Rem<Rhs> for Kilobaud<T> {
    type Output = Self;

    /// Returns the remainder as the LHS type
    fn rem(self, rhs: Rhs) -> (r: Self) {
        let r = FixedPointOps::rem(self, rhs);
        proof {
            if spec_convert::<Rhs, Self>(rhs) is Ok {
                let v = spec_convert::<Rhs, Self>(rhs)->Ok_0;
                let m: nat = if v > 0 {
                    self.0.spec_value() % v
                } else {
                    0
                };
                T::lemma_range(self.0, self.0);
                T::lemma_from_nat(m);
                T::lemma_range(r.0, T::spec_from_nat(m));
            }
        }
        r
    }
}

impl<T: TimeInt, Rhs: FixedPoint> RemSpecImpl<Rhs> for Kilobaud<T> {
    open spec fn obeys_rem_spec() -> bool {
        true
    }

    open spec fn rem_req(self, rhs: Rhs) -> bool {
        true
    }

    open spec fn rem_spec(self, rhs: Rhs) -> Self {
        match spec_convert::<Rhs, Self>(rhs) {
            Ok(v) => Kilobaud(
                T::spec_from_nat(
                    if v > 0 {
                        self.0.spec_value() % v
                    } else {
                        0
                    },
                ),
            ),
            Err(_) => self,
        }
    }
}

impl<SourceInt: TimeInt, DestInt: TimeInt> TryFrom<Generic<SourceInt>> for Kilobaud<DestInt> {
    type Error = ConversionError;

    /// Construct this unit from a `Generic` value (a scaling factor with a zero denominator is
    /// reported as [`ConversionError::DivByZero`])
    fn try_from(generic: Generic<SourceInt>) -> (r: Result<Self, ConversionError>) {
        if *generic.scaling_factor().denominator() == 0 {
            Err(ConversionError::DivByZero)
        } else {
            let r = Self::try_from_generic(generic);
            proof {
                if r is Ok {
                    DestInt::lemma_range(r->Ok_0.0, r->Ok_0.0);
                    DestInt::lemma_from_nat(r->Ok_0.0.spec_value());
                    DestInt::lemma_range(r->Ok_0.0, DestInt::spec_from_nat(r->Ok_0.0.spec_value()));
                }
            }
            r
        }
    }
}

impl<SourceInt: TimeInt, DestInt: TimeInt> TryFromSpecImpl<Generic<SourceInt>> for Kilobaud<DestInt> {
    open spec fn obeys_try_from_spec() -> bool {
        true
    }

    open spec fn try_from_spec(generic: Generic<SourceInt>) -> Result<Self, ConversionError> {
        if generic.spec_scaling_factor().spec_denom() == 0 {
            Err(ConversionError::DivByZero)
        } else {
            match spec_from_ticks(
                generic.spec_integer().spec_value(),
                SourceInt::spec_max(),
                generic.spec_scaling_factor(),
                DestInt::spec_max(),
                Fraction::spec_new(1000, 1),
            ) {
                Ok(v) => Ok(Kilobaud(DestInt::spec_from_nat(v))),
                Err(e) => Err(e),
            }
        }
    }
}

impl<T: TimeInt> From<Kilobaud<T>> for Generic<T> {
    /// The `Generic` `Rate` of the same integer and scaling factor
    fn from(rate: Kilobaud<T>) -> (r: Self) {
        Self::new(rate.0, Fraction::new(1000, 1))
    }
}

impl<T: TimeInt> FromSpecImpl<Kilobaud<T>> for Generic<T> {
    open spec fn obeys_from_spec() -> bool {
        true
    }

    open spec fn from_spec(rate: Kilobaud<T>) -> Self {
        Generic::spec_new(rate.0, Fraction::spec_new(1000, 1))
    }
}

/// A rate unit type: Baud
#[derive(Clone, Copy, Debug, Eq)]
pub struct Baud<T: TimeInt = u32>(pub T);

impl<T: TimeInt> Baud<T> {
    /// Construct a new value of this unit
    pub fn new(value: T) -> (r: Self)
        ensures
            r.0 == value,
    {
        Self(value)
    }

    /// Construct this unit from a `Generic` value of any scaling factor (with a positive
    /// denominator)
    ///
    /// # Errors
    ///
    /// As [`from_ticks`]
    pub fn try_from_generic<SourceInt: TimeInt>(generic: Generic<SourceInt>) -> (r: Result<
        Self,
        ConversionError,
    >)
        requires
            generic.spec_scaling_factor().spec_denom() > 0,
        ensures
            match spec_from_ticks(
                generic.spec_integer().spec_value(),
                SourceInt::spec_max(),
                generic.spec_scaling_factor(),
                T::spec_max(),
                Self::spec_scaling_factor(),
            ) {
                Ok(v) => r matches Ok(d) && d.0.spec_value() == v,
                Err(e) => r == Err::<Self, ConversionError>(e),
            },
    {
        from_ticks(*generic.integer(), *generic.scaling_factor())
    }
}

impl<T: TimeInt> Rate for Baud<T> {

}

impl<T: TimeInt> FixedPoint for Baud<T> {
    type T = T;

    open spec fn spec_scaling_factor() -> Fraction {
        Fraction::spec_new(1, 1)
    }

    proof fn lemma_scaling_factor() {
        Fraction::lemma_spec_new(1, 1);
    }

    fn scaling_factor() -> (r: Fraction) {
        Fraction::new(1, 1)
    }

    open spec fn spec_integer(self) -> T {
        self.0
    }

    fn new(value: T) -> (r: Self) {
        Self(value)
    }

    fn integer(&self) -> (r: &T) {
        &self.0
    }
}

impl<T: TimeInt, Rhs: FixedPoint> PartialEq<Rhs> for Baud<T> {
    fn eq(&self, rhs: &Rhs) -> (r: bool) {
        FixedPointOps::eq(self, rhs)
    }
}

impl<T: TimeInt, Rhs: FixedPoint> PartialEqSpecImpl<Rhs> for Baud<T> {
    open spec fn obeys_eq_spec() -> bool {
        true
    }

    open spec fn eq_spec(&self, rhs: &Rhs) -> bool {
        spec_fixed_eq(*self, *rhs)
    }
}

impl<T: TimeInt, Rhs: FixedPoint> PartialOrd<Rhs> for Baud<T> {
    fn partial_cmp(&self, rhs: &Rhs) -> (r: Option<Ordering>) {
        FixedPointOps::partial_cmp(self, rhs)
    }
}

impl<T: TimeInt, Rhs: FixedPoint> PartialOrdSpecImpl<Rhs> for Baud<T> {
    open spec fn obeys_partial_cmp_spec() -> bool {
        true
    }

    open spec fn partial_cmp_spec(&self, rhs: &Rhs) -> Option<Ordering> {
        Some(fixed_order(*self, *rhs))
    }
}

impl<T: TimeInt, Rhs: FixedPoint> core::ops::Add<Rhs> for Baud<T> {
    type Output = Self;

    /// Returns the sum as the LHS type
    fn add(self, rhs: Rhs) -> (r: Self) {
        let r = FixedPointOps::add(self, rhs);
        proof {
            let v = self.0.spec_value() + spec_convert::<Rhs, Self>(rhs)->Ok_0;
            T::lemma_from_nat(v);
            T::lemma_range(r.0, T::spec_from_nat(v));
        }
        r
    }
}

impl<T: TimeInt, Rhs: FixedPoint> AddSpecImpl<Rhs> for Baud<T> {
    open spec fn obeys_add_spec() -> bool {
        true
    }

    open spec fn add_req(self, rhs: Rhs) -> bool {
        &&& spec_convert::<Rhs, Self>(rhs) is Ok
        &&& self.0.spec_value() + spec_convert::<Rhs, Self>(rhs)->Ok_0 <= T::spec_max()
    }

    open spec fn add_spec(self, rhs: Rhs) -> Self {
        Baud(T::spec_from_nat(self.0.spec_value() + spec_convert::<Rhs, Self>(rhs)->Ok_0))
    }
}

impl<T: TimeInt, Rhs: FixedPoint> core::ops::Sub<Rhs> for Baud<T> {
    type Output = Self;

    /// Returns the difference as the LHS type
    fn sub(self, rhs: Rhs) -> (r: Self) {
        let r = FixedPointOps::sub(self, rhs);
        proof {
            let v = (self.0.spec_value() - spec_convert::<Rhs, Self>(rhs)->Ok_0) as nat;
            T::lemma_range(self.0, self.0);
            T::lemma_from_nat(v);
            T::lemma_range(r.0, T::spec_from_nat(v));
        }
        r
    }
}

impl<T: TimeInt, Rhs: FixedPoint> SubSpecImpl<Rhs> for Baud<T> {
    open spec fn obeys_sub_spec() -> bool {
        true
    }

    open spec fn sub_req(self, rhs: Rhs) -> bool {
        &&& spec_convert::<Rhs, Self>(rhs) is Ok
        &&& self.0.spec_value() >= spec_convert::<Rhs, Self>(rhs)->Ok_0
    }

    open spec fn sub_spec(self, rhs: Rhs) -> Self {
        Baud(T::spec_from_nat((self.0.spec_value() - spec_convert::<Rhs, Self>(rhs)->Ok_0) as nat))
    }
}

impl<T: TimeInt, Rhs: FixedPoint> core::ops::Rem<Rhs> for Baud<T> {
    type Output = Self;

    /// Returns the remainder as the LHS type
    fn rem(self, rhs: Rhs) -> (r: Self) {
        let r = FixedPointOps::rem(self, rhs);
        proof {
            if spec_convert::<Rhs, Self>(rhs) is Ok {
                let v = spec_convert::<Rhs, Self>(rhs)->Ok_0;
                let m: nat = if v > 0 {
                    self.0.spec_value() % v
                } else {
                    0
                };
                T::lemma_range(self.0, self.0);
                T::lemma_from_nat(m);
                T::lemma_range(r.0, T::spec_from_nat(m));
            }
        }
        r
    }
}

impl<T: TimeInt, Rhs: FixedPoint> RemSpecImpl<Rhs> for Baud<T> {
    open spec fn obeys_rem_spec() -> bool {
        true
    }

    open spec fn rem_req(self, rhs: Rhs) -> bool {
        true
    }

    open spec fn rem_spec(self, rhs: Rhs) -> Self {
        match spec_convert::<Rhs, Self>(rhs) {
            Ok(v) => Baud(
                T::spec_from_nat(
                    if v > 0 {
                        self.0.spec_value() % v
                    } else {
                        0
                    },
                ),
            ),
            Err(_) => self,
        }
    }
}

impl<SourceInt: TimeInt, DestInt: TimeInt> TryFrom<Generic<SourceInt>> for Baud<DestInt> {
    type Error = ConversionError;

    /// Construct this unit from a `Generic` value (a scaling factor with a zero denominator is
    /// reported as [`ConversionError::DivByZero`])
    fn try_from(generic: Generic<SourceInt>) -> (r: Result<Self, ConversionError>) {
        if *generic.scaling_factor().denominator() == 0 {
            Err(ConversionError::DivByZero)
        } else {
            let r = Self::try_from_generic(generic);
            proof {
                if r is Ok {
                    DestInt::lemma_range(r->Ok_0.0, r->Ok_0.0);
                    DestInt::lemma_from_nat(r->Ok_0.0.spec_value());
                    DestInt::lemma_range(r->Ok_0.0, DestInt::spec_from_nat(r->Ok_0.0.spec_value()));
                }
            }
            r
        }
    }
}

impl<SourceInt: TimeInt, DestInt: TimeInt> TryFromSpecImpl<Generic<SourceInt>> for Baud<DestInt> {
    open spec fn obeys_try_from_spec() -> bool {
        true
    }

    open spec fn try_from_spec(generic: Generic<SourceInt>) -> Result<Self, ConversionError> {
        if generic.spec_scaling_factor().spec_denom() == 0 {
            Err(ConversionError::DivByZero)
        } else {
            match spec_from_ticks(
                generic.spec_integer().spec_value(),
                SourceInt::spec_max(),
                generic.spec_scaling_factor(),
                DestInt::spec_max(),
                Fraction::spec_new(1, 1),
            ) {
                Ok(v) => Ok(Baud(DestInt::spec_from_nat(v))),
                Err(e) => Err(e),
            }
        }
    }
}

impl<T: TimeInt> From<Baud<T>> for Generic<T> {
    /// The `Generic` `Rate` of the same integer and scaling factor
    fn from(rate: Baud<T>) -> (r: Self) {
        Self::new(rate.0, Fraction::new(1, 1))
    }
}

impl<T: TimeInt> FromSpecImpl<Baud<T>> for Generic<T> {
    open spec fn obeys_from_spec() -> bool {
        true
    }

    open spec fn from_spec(rate: Baud<T>) -> Self {
        Generic::spec_new(rate.0, Fraction::spec_new(1, 1))
    }
}

/// Create rate-based values from primitive numeric types.
#[allow(non_snake_case)]
pub trait Extensions: TimeInt {
    /// megahertz
    fn MHz(self) -> (r: Megahertz<Self>)
        ensures
            r.0 == self,
    {
        Megahertz::new(self)
    }

    /// kilohertz
    fn kHz(self) -> (r: Kilohertz<Self>)
        ensures
            r.0 == self,
    {
        Kilohertz::new(self)
    }

    /// hertz
    fn Hz(self) -> (r: Hertz<Self>)
        ensures
            r.0 == self,
    {
        Hertz::new(self)
    }

    /// mebibytes per second
    fn MiBps(self) -> (r: MebibytesPerSecond<Self>)
        ensures
            r.0 == self,
    {
        MebibytesPerSecond::new(self)
    }

    /// megabytes per second
    fn MBps(self) -> (r: MegabytesPerSecond<Self>)
        ensures
            r.0 == self,
    {
        MegabytesPerSecond::new(self)
    }

    /// kibibytes per second
    fn KiBps(self) -> (r: KibibytesPerSecond<Self>)
        ensures
            r.0 == self,
    {
        KibibytesPerSecond::new(self)
    }

    /// kiloBytes per second
    fn kBps(self) -> (r: KiloBytesPerSecond<Self>)
        ensures
            r.0 == self,
    {
        KiloBytesPerSecond::new(self)
    }

    /// bytes per second
    fn Bps(self) -> (r: BytesPerSecond<Self>)
        ensures
            r.0 == self,
    {
        BytesPerSecond::new(self)
    }

    /// mebibits per second
    fn Mibps(self) -> (r: MebibitsPerSecond<Self>)
        ensures
            r.0 == self,
    {
        MebibitsPerSecond::new(self)
    }

    /// megabits per second
    fn Mbps(self) -> (r: MegabitsPerSecond<Self>)
        ensures
            r.0 == self,
    {
        MegabitsPerSecond::new(self)
    }

    /// kibibits per second
    fn Kibps(self) -> (r: KibibitsPerSecond<Self>)
        ensures
            r.0 == self,
    {
        KibibitsPerSecond::new(self)
    }

    /// kilobits per second
    fn kbps(self) -> (r: KilobitsPerSecond<Self>)
        ensures
            r.0 == self,
    {
        KilobitsPerSecond::new(self)
    }

    /// bits per second
    fn bps(self) -> (r: BitsPerSecond<Self>)
        ensures
            r.0 == self,
    {
        BitsPerSecond::new(self)
    }

    /// mebibaud
    fn MiBd(self) -> (r: Mebibaud<Self>)
        ensures
            r.0 == self,
    {
        Mebibaud::new(self)
    }

    /// megabaud
    fn MBd(self) -> (r: Megabaud<Self>)
        ensures
            r.0 == self,
    {
        Megabaud::new(self)
    }

    /// kibibaud
    fn KiBd(self) -> (r: Kibibaud<Self>)
        ensures
            r.0 == self,
    {
        Kibibaud::new(self)
    }

    /// kilobaud
    fn kBd(self) -> (r: Kilobaud<Self>)
        ensures
            r.0 == self,
    {
        Kilobaud::new(self)
    }

    /// baud
    fn Bd(self) -> (r: Baud<Self>)
        ensures
            r.0 == self,
    {
        Baud::new(self)
    }
}

impl Extensions for u32 {

}

impl Extensions for u64 {

}

} // verus!
