//! Duration units
use crate::duration::{
    core_duration_micros, core_duration_millis, core_duration_nanos, core_duration_of_micros,
    core_duration_of_millis, core_duration_of_nanos, core_duration_of_secs, core_duration_secs,
    core_duration_as_micros, core_duration_as_millis, core_duration_as_nanos,
    core_duration_as_secs, core_duration_from_micros, core_duration_from_millis,
    core_duration_from_nanos, core_duration_from_secs, Duration, Generic,
};
use crate::fixed_point::{
    duration_holds, fixed_order, from_ticks, spec_convert, spec_fixed_eq, spec_from_ticks, FixedPoint,
    FixedPointOps,
};
use crate::fraction::Fraction;
use crate::time_int::TimeInt;
use crate::ConversionError;
use core::cmp::Ordering;
use vstd::prelude::*;
use vstd::std_specs::cmp::PartialEqSpecImpl;
use vstd::std_specs::cmp::PartialOrdSpecImpl;
use vstd::std_specs::convert::TryFromSpecImpl;
use vstd::std_specs::ops::AddSpecImpl;
use vstd::std_specs::ops::RemSpecImpl;
use vstd::std_specs::ops::SubSpecImpl;

verus! {

/// A duration unit type: 3600 seconds per tick
#[derive(Clone, Copy, Debug, Eq)]
pub struct Hours<T: TimeInt = u32>(pub T);

impl<T: TimeInt> Hours<T> {
    /// Construct a new value of this unit
    pub fn new(value: T) -> (r: Self)
        ensures
            r.0 == value,
    {
        Self(value)
    }

    /// Construct this unit from a `Generic` value of any scaling factor (with a positive
    /// denominator)
    ///
    /// # Errors
    ///
    /// As [`from_ticks`]
    pub fn try_from_generic<SourceInt: TimeInt>(generic: Generic<SourceInt>) -> (r: Result<
        Self,
        ConversionError,
    >)
        requires
            generic.spec_scaling_factor().spec_denom() > 0,
        ensures
            match spec_from_ticks(
                generic.spec_integer().spec_value(),
                SourceInt::spec_max(),
                generic.spec_scaling_factor(),
                T::spec_max(),
                Self::spec_scaling_factor(),
            ) {
                Ok(v) => r matches Ok(d) && d.0.spec_value() == v,
                Err(e) => r == Err::<Self, ConversionError>(e),
            },
    {
        from_ticks(*generic.integer(), *generic.scaling_factor())
    }
}

impl<T: TimeInt> Duration for Hours<T> {

}

impl<T: TimeInt> FixedPoint for Hours<T> {
    type T = T;

    open spec fn spec_scaling_factor() -> Fraction {
        Fraction::spec_new(3600, 1)
    }

    proof fn lemma_scaling_factor() {
        Fraction::lemma_spec_new(3600, 1);
    }

    fn scaling_factor() -> (r: Fraction) {
        Fraction::new(3600, 1)
    }

    open spec fn spec_integer(self) -> T {
        self.0
    }

    fn new(value: T) -> (r: Self) {
        Self(value)
    }

    fn integer(&self) -> (r: &T) {
        &self.0
    }
}

impl<T: TimeInt, Rhs: FixedPoint> PartialEq<Rhs> for Hours<T> {
    fn eq(&self, rhs: &Rhs) -> (r: bool) {
        FixedPointOps::eq(self, rhs)
    }
}

impl<T: TimeInt, Rhs: FixedPoint> PartialEqSpecImpl<Rhs> for Hours<T> {
    open spec fn obeys_eq_spec() -> bool {
        true
    }

    open spec fn eq_spec(&self, rhs: &Rhs) -> bool {
        spec_fixed_eq(*self, *rhs)
    }
}

impl<T: TimeInt, Rhs: FixedPoint> PartialOrd<Rhs> for Hours<T> {
    fn partial_cmp(&self, rhs: &Rhs) -> (r: Option<Ordering>) {
        FixedPointOps::partial_cmp(self, rhs)
    }
}

impl<T: TimeInt, Rhs: FixedPoint> PartialOrdSpecImpl<Rhs> for Hours<T> {
    open spec fn obeys_partial_cmp_spec() -> bool {
        true
    }

    open spec fn partial_cmp_spec(&self, rhs: &Rhs) -> Option<Ordering> {
        Some(fixed_order(*self, *rhs))
    }
}

impl<T: TimeInt, Rhs: FixedPoint> core::ops::Add<Rhs> for Hours<T> {
    type Output = Self;

    /// Returns the sum as the LHS type
    fn add(self, rhs: Rhs) -> (r: Self) {
        let r = FixedPointOps::add(self, rhs);
        proof {
            let v = self.0.spec_value() + spec_convert::<Rhs, Self>(rhs)->Ok_0;
            T::lemma_from_nat(v);
            T::lemma_range(r.0, T::spec_from_nat(v));
        }
        r
    }
}

impl<T: TimeInt, Rhs: FixedPoint> AddSpecImpl<Rhs> for Hours<T> {
    open spec fn obeys_add_spec() -> bool {
        true
    }

    open spec fn add_req(self, rhs: Rhs) -> bool {
        &&& spec_convert::<Rhs, Self>(rhs) is Ok
        &&& self.0.spec_value() + spec_convert::<Rhs, Self>(rhs)->Ok_0 <= T::spec_max()
    }

    open spec fn add_spec(self, rhs: Rhs) -> Self {
        Hours(T::spec_from_nat(self.0.spec_value() + spec_convert::<Rhs, Self>(rhs)->Ok_0))
    }
}

impl<T: TimeInt, Rhs: FixedPoint> core::ops::Sub<Rhs> for Hours<T> {
    type Output = Self;

    /// Returns the difference as the LHS type
    fn sub(self, rhs: Rhs) -> (r: Self) {
        let r = FixedPointOps::sub(self, rhs);
        proof {
            let v = (self.0.spec_value() - spec_convert::<Rhs, Self>(rhs)->Ok_0) as nat;
            T::lemma_range(self.0, self.0);
            T::lemma_from_nat(v);
            T::lemma_range(r.0, T::spec_from_nat(v));
        }
        r
    }
}

impl<T: TimeInt, Rhs: FixedPoint> SubSpecImpl<Rhs> for Hours<T> {
    open spec fn obeys_sub_spec() -> bool {
        true
    }

    open spec fn sub_req(self, rhs: Rhs) -> bool {
        &&& spec_convert::<Rhs, Self>(rhs) is Ok
        &&& self.0.spec_value() >= spec_convert::<Rhs, Self>(rhs)->Ok_0
    }

    open spec fn sub_spec(self, rhs: Rhs) -> Self {
        Hours(T::spec_from_nat((self.0.spec_value() - spec_convert::<Rhs, Self>(rhs)->Ok_0) as nat))
    }
}

impl<T: TimeInt, Rhs: FixedPoint> core::ops::Rem<Rhs> for Hours<T> {
    type Output = Self;

    /// Returns the remainder as the LHS type
    fn rem(self, rhs: Rhs) -> (r: Self) {
        let r = FixedPointOps::rem(self, rhs);
        proof {
            if spec_convert::<Rhs, Self>(rhs) is Ok {
                let v = spec_convert::<Rhs, Self>(rhs)->Ok_0;
                let m: nat = if v > 0 {
                    self.0.spec_value() % v
                } else {
                    0
                };
                T::lemma_range(self.0, self.0);
                T::lemma_from_nat(m);
                T::lemma_range(r.0, T::spec_from_nat(m));
            }
        }
        r
    }
}

impl<T: TimeInt, Rhs: FixedPoint> RemSpecImpl<Rhs> for Hours<T> {
    open spec fn obeys_rem_spec() -> bool {
        true
    }

    open spec fn rem_req(self, rhs: Rhs) -> bool {
        true
    }

    open spec fn rem_spec(self, rhs: Rhs) -> Self {
        match spec_convert::<Rhs, Self>(rhs) {
            Ok(v) => Hours(
                T::spec_from_nat(
                    if v > 0 {
                        self.0.spec_value() % v
                    } else {
                        0
                    },
                ),
            ),
            Err(_) => self,
        }
    }
}

impl<SourceInt: TimeInt, DestInt: TimeInt> TryFrom<Generic<SourceInt>> for Hours<DestInt> {
    type Error = ConversionError;

    /// Construct this unit from a `Generic` value (a scaling factor with a zero denominator is
    /// reported as [`ConversionError::DivByZero`])
    fn try_from(generic: Generic<SourceInt>) -> (r: Result<Self, ConversionError>) {
        if *generic.scaling_factor().denominator() == 0 {
            Err(ConversionError::DivByZero)
        } else {
            let r = Self::try_from_generic(generic);
            proof {
                if r is Ok {
                    DestInt::lemma_range(r->Ok_0.0, r->Ok_0.0);
                    DestInt::lemma_from_nat(r->Ok_0.0.spec_value());
                    DestInt::lemma_range(r->Ok_0.0, DestInt::spec_from_nat(r->Ok_0.0.spec_value()));
                }
            }
            r
        }
    }
}

impl<SourceInt: TimeInt, DestInt: TimeInt> TryFromSpecImpl<Generic<SourceInt>> for Hours<DestInt> {
    open spec fn obeys_try_from_spec() -> bool {
        true
    }

    open spec fn try_from_spec(generic: Generic<SourceInt>) -> Result<Self, ConversionError> {
        if generic.spec_scaling_factor().spec_denom() == 0 {
            Err(ConversionError::DivByZero)
        } else {
            match spec_from_ticks(
                generic.spec_integer().spec_value(),
                SourceInt::spec_max(),
                generic.spec_scaling_factor(),
                DestInt::spec_max(),
                Fraction::spec_new(3600, 1),
            ) {
                Ok(v) => Ok(Hours(DestInt::spec_from_nat(v))),
                Err(e) => Err(e),
            }
        }
    }
}

impl<T: TimeInt> Hours<T> {
    /// The whole seconds of this duration (a [`core::time::Duration`] is made of them)
    ///
    /// # Errors
    ///
    /// As [`FixedPointOps::try_convert_from`] into `Seconds<u64>`
    pub fn to_core_secs(self) -> (r: Result<u64, ConversionError>)
        ensures
            match spec_convert::<Self, Seconds<u64>>(self) {
                Ok(v) => r == Ok::<u64, ConversionError>(v as u64),
                Err(e) => r == Err::<u64, ConversionError>(e),
            },
    {
        match Seconds::<u64>::try_convert_from(self) {
            Ok(seconds) => Ok(seconds.0),
            Err(e) => Err(e),
        }
    }

    /// Construct this unit from the whole seconds of a [`core::time::Duration`] (its
    /// sub-second part is dropped)
    ///
    /// # Errors
    ///
    /// As [`FixedPointOps::try_convert_from`] from `Seconds<u64>`
    pub fn from_core_secs(secs: u64) -> (r: Result<Self, ConversionError>)
        ensures
            match spec_convert::<Seconds<u64>, Self>(Seconds(secs)) {
                Ok(v) => r matches Ok(d) && d.0.spec_value() == v,
                Err(e) => r == Err::<Self, ConversionError>(e),
            },
    {
        Self::try_convert_from(Seconds(secs))
    }
}

impl<T: TimeInt> TryFrom<Hours<T>> for core::time::Duration {
    type Error = ConversionError;

    /// Construct a [`core::time::Duration`] from a duration of this unit (whole seconds)
    fn try_from(duration: Hours<T>) -> (r: Result<Self, ConversionError>)
        ensures
            r is Ok <==> spec_convert::<Hours<T>, Seconds<u64>>(duration) is Ok,
            r matches Err(e) ==> spec_convert::<Hours<T>, Seconds<u64>>(duration) == Err::<
                nat,
                ConversionError,
            >(e),
            r matches Ok(d) ==> d == core_duration_of_secs(
                spec_convert::<Hours<T>, Seconds<u64>>(duration)->Ok_0 as u64,
            ),
    {
        match duration.to_core_secs() {
            Ok(secs) => Ok(core_duration_from_secs(secs)),
            Err(e) => Err(e),
        }
    }
}

impl<T: TimeInt> TryFromSpecImpl<Hours<T>> for core::time::Duration {
    open spec fn obeys_try_from_spec() -> bool {
        true
    }

    open spec fn try_from_spec(duration: Hours<T>) -> Result<Self, ConversionError> {
        match spec_convert::<Hours<T>, Seconds<u64>>(duration) {
            Ok(v) => Ok(core_duration_of_secs(v as u64)),
            Err(e) => Err(e),
        }
    }
}

impl<T: TimeInt> TryFrom<core::time::Duration> for Hours<T> {
    type Error = ConversionError;

    /// Construct a duration of this unit from a [`core::time::Duration`] (whole seconds)
    fn try_from(core_duration: core::time::Duration) -> (r: Result<Self, ConversionError>)
        ensures
            duration_holds(
                r,
                spec_convert::<Seconds<u64>, Self>(Seconds(core_duration_secs(core_duration))),
            ),
    {
        let r = Self::from_core_secs(core_duration_as_secs(&core_duration));
        proof {
            if r is Ok {
                T::lemma_range(r->Ok_0.0, r->Ok_0.0);
                T::lemma_from_nat(r->Ok_0.0.spec_value());
                T::lemma_range(r->Ok_0.0, T::spec_from_nat(r->Ok_0.0.spec_value()));
            }
        }
        r
    }
}

impl<T: TimeInt> TryFromSpecImpl<core::time::Duration> for Hours<T> {
    open spec fn obeys_try_from_spec() -> bool {
        true
    }

    open spec fn try_from_spec(core_duration: core::time::Duration) -> Result<Self, ConversionError> {
        match spec_convert::<Seconds<u64>, Self>(Seconds(core_duration_secs(core_duration))) {
            Ok(v) => Ok(Hours(T::spec_from_nat(v))),
            Err(e) => Err(e),
        }
    }
}

/// A duration unit type: 60 seconds per tick
#[derive(Clone, Copy, Debug, Eq)]
pub struct Minutes<T: TimeInt = u32>(pub T);

impl<T: TimeInt> Minutes<T> {
    /// Construct a new value of this unit
    pub fn new(value: T) -> (r: Self)
        ensures
            r.0 == value,
    {
        Self(value)
    }

    /// Construct this unit from a `Generic` value of any scaling factor (with a positive
    /// denominator)
    ///
    /// # Errors
    ///
    /// As [`from_ticks`]
    pub fn try_from_generic<SourceInt: TimeInt>(generic: Generic<SourceInt>) -> (r: Result<
        Self,
        ConversionError,
    >)
        requires
            generic.spec_scaling_factor().spec_denom() > 0,
        ensures
            match spec_from_ticks(
                generic.spec_integer().spec_value(),
                SourceInt::spec_max(),
                generic.spec_scaling_factor(),
                T::spec_max(),
                Self::spec_scaling_factor(),
            ) {
                Ok(v) => r matches Ok(d) && d.0.spec_value() == v,
                Err(e) => r == Err::<Self, ConversionError>(e),
            },
    {
        from_ticks(*generic.integer(), *generic.scaling_factor())
    }
}

impl<T: TimeInt> Duration for Minutes<T> {

}

impl<T: TimeInt> FixedPoint for Minutes<T> {
    type T = T;

    open spec fn spec_scaling_factor() -> Fraction {
        Fraction::spec_new(60, 1)
    }

    proof fn lemma_scaling_factor() {
        Fraction::lemma_spec_new(60, 1);
    }

    fn scaling_factor() -> (r: Fraction) {
        Fraction::new(60, 1)
    }

    open spec fn spec_integer(self) -> T {
        self.0
    }

    fn new(value: T) -> (r: Self) {
        Self(value)
    }

    fn integer(&self) -> (r: &T) {
        &self.0
    }
}

impl<T: TimeInt, Rhs: FixedPoint> PartialEq<Rhs> for Minutes<T> {
    fn eq(&self, rhs: &Rhs) -> (r: bool) {
        FixedPointOps::eq(self, rhs)
    }
}

impl<T: TimeInt, Rhs: FixedPoint> PartialEqSpecImpl<Rhs> for Minutes<T> {
    open spec fn obeys_eq_spec() -> bool {
        true
    }

    open spec fn eq_spec(&self, rhs: &Rhs) -> bool {
        spec_fixed_eq(*self, *rhs)
    }
}

impl<T: TimeInt, Rhs: FixedPoint> PartialOrd<Rhs> for Minutes<T> {
    fn partial_cmp(&self, rhs: &Rhs) -> (r: Option<Ordering>) {
        FixedPointOps::partial_cmp(self, rhs)
    }
}

impl<T: TimeInt, Rhs: FixedPoint> PartialOrdSpecImpl<Rhs> for Minutes<T> {
    open spec fn obeys_partial_cmp_spec() -> bool {
        true
    }

    open spec fn partial_cmp_spec(&self, rhs: &Rhs) -> Option<Ordering> {
        Some(fixed_order(*self, *rhs))
    }
}

impl<T: TimeInt, Rhs: FixedPoint> core::ops::Add<Rhs> for Minutes<T> {
    type Output = Self;

    /// Returns the sum as the LHS type
    fn add(self, rhs: Rhs) -> (r: Self) {
        let r = FixedPointOps::add(self, rhs);
        proof {
            let v = self.0.spec_value() + spec_convert::<Rhs, Self>(rhs)->Ok_0;
            T::lemma_from_nat(v);
            T::lemma_range(r.0, T::spec_from_nat(v));
        }
        r
    }
}

impl<T: TimeInt, Rhs: FixedPoint> AddSpecImpl<Rhs> for Minutes<T> {
    open spec fn obeys_add_spec() -> bool {
        true
    }

    open spec fn add_req(self, rhs: Rhs) -> bool {
        &&& spec_convert::<Rhs, Self>(rhs) is Ok
        &&& self.0.spec_value() + spec_convert::<Rhs, Self>(rhs)->Ok_0 <= T::spec_max()
    }

    open spec fn add_spec(self, rhs: Rhs) -> Self {
        Minutes(T::spec_from_nat(self.0.spec_value() + spec_convert::<Rhs, Self>(rhs)->Ok_0))
    }
}

impl<T: TimeInt, Rhs: FixedPoint> core::ops::Sub<Rhs> for Minutes<T> {
    type Output = Self;

    /// Returns the difference as the LHS type
    fn sub(self, rhs: Rhs) -> (r: Self) {
        let r = FixedPointOps::sub(self, rhs);
        proof {
            let v = (self.0.spec_value() - spec_convert::<Rhs, Self>(rhs)->Ok_0) as nat;
            T::lemma_range(self.0, self.0);
            T::lemma_from_nat(v);
            T::lemma_range(r.0, T::spec_from_nat(v));
        }
        r
    }
}

impl<T: TimeInt, Rhs: FixedPoint> SubSpecImpl<Rhs> for Minutes<T> {
    open spec fn obeys_sub_spec() -> bool {
        true
    }

    open spec fn sub_req(self, rhs: Rhs) -> bool {
        &&& spec_convert::<Rhs, Self>(rhs) is Ok
        &&& self.0.spec_value() >= spec_convert::<Rhs, Self>(rhs)->Ok_0
    }

    open spec fn sub_spec(self, rhs: Rhs) -> Self {
        Minutes(T::spec_from_nat((self.0.spec_value() - spec_convert::<Rhs, Self>(rhs)->Ok_0) as nat))
    }
}

impl<T: TimeInt, Rhs: FixedPoint> core::ops::Rem<Rhs> for Minutes<T> {
    type Output = Self;

    /// Returns the remainder as the LHS type
    fn rem(self, rhs: Rhs) -> (r: Self) {
        let r = FixedPointOps::rem(self, rhs);
        proof {
            if spec_convert::<Rhs, Self>(rhs) is Ok {
                let v = spec_convert::<Rhs, Self>(rhs)->Ok_0;
                let m: nat = if v > 0 {
                    self.0.spec_value() % v
                } else {
                    0
                };
                T::lemma_range(self.0, self.0);
                T::lemma_from_nat(m);
                T::lemma_range(r.0, T::spec_from_nat(m));
            }
        }
        r
    }
}

impl<T: TimeInt, Rhs: FixedPoint> RemSpecImpl<Rhs> for Minutes<T> {
    open spec fn obeys_rem_spec() -> bool {
        true
    }

    open spec fn rem_req(self, rhs: Rhs) -> bool {
        true
    }

    open spec fn rem_spec(self, rhs: Rhs) -> Self {
        match spec_convert::<Rhs, Self>(rhs) {
            Ok(v) => Minutes(
                T::spec_from_nat(
                    if v > 0 {
                        self.0.spec_value() % v
                    } else {
                        0
                    },
                ),
            ),
            Err(_) => self,
        }
    }
}

impl<SourceInt: TimeInt, DestInt: TimeInt> TryFrom<Generic<SourceInt>> for Minutes<DestInt> {
    type Error = ConversionError;

    /// Construct this unit from a `Generic` value (a scaling factor with a zero denominator is
    /// reported as [`ConversionError::DivByZero`])
    fn try_from(generic: Generic<SourceInt>) -> (r: Result<Self, ConversionError>) {
        if *generic.scaling_factor().denominator() == 0 {
            Err(ConversionError::DivByZero)
        } else {
            let r = Self::try_from_generic(generic);
            proof {
                if r is Ok {
                    DestInt::lemma_range(r->Ok_0.0, r->Ok_0.0);
                    DestInt::lemma_from_nat(r->Ok_0.0.spec_value());
                    DestInt::lemma_range(r->Ok_0.0, DestInt::spec_from_nat(r->Ok_0.0.spec_value()));
                }
            }
            r
        }
    }
}

impl<SourceInt: TimeInt, DestInt: TimeInt> TryFromSpecImpl<Generic<SourceInt>> for Minutes<DestInt> {
    open spec fn obeys_try_from_spec() -> bool {
        true
    }

    open spec fn try_from_spec(generic: Generic<SourceInt>) -> Result<Self, ConversionError> {
        if generic.spec_scaling_factor().spec_denom() == 0 {
            Err(ConversionError::DivByZero)
        } else {
            match spec_from_ticks(
                generic.spec_integer().spec_value(),
                SourceInt::spec_max(),
                generic.spec_scaling_factor(),
                DestInt::spec_max(),
                Fraction::spec_new(60, 1),
            ) {
                Ok(v) => Ok(Minutes(DestInt::spec_from_nat(v))),
                Err(e) => Err(e),
            }
        }
    }
}

impl<T: TimeInt> Minutes<T> {
    /// The whole seconds of this duration (a [`core::time::Duration`] is made of them)
    ///
    /// # Errors
    ///
    /// As [`FixedPointOps::try_convert_from`] into `Seconds<u64>`
    pub fn to_core_secs(self) -> (r: Result<u64, ConversionError>)
        ensures
            match spec_convert::<Self, Seconds<u64>>(self) {
                Ok(v) => r == Ok::<u64, ConversionError>(v as u64),
                Err(e) => r == Err::<u64, ConversionError>(e),
            },
    {
        match Seconds::<u64>::try_convert_from(self) {
            Ok(seconds) => Ok(seconds.0),
            Err(e) => Err(e),
        }
    }

    /// Construct this unit from the whole seconds of a [`core::time::Duration`] (its
    /// sub-second part is dropped)
    ///
    /// # Errors
    ///
    /// As [`FixedPointOps::try_convert_from`] from `Seconds<u64>`
    pub fn from_core_secs(secs: u64) -> (r: Result<Self, ConversionError>)
        ensures
            match spec_convert::<Seconds<u64>, Self>(Seconds(secs)) {
                Ok(v) => r matches Ok(d) && d.0.spec_value() == v,
                Err(e) => r == Err::<Self, ConversionError>(e),
            },
    {
        Self::try_convert_from(Seconds(secs))
    }
}

impl<T: TimeInt> TryFrom<Minutes<T>> for core::time::Duration {
    type Error = ConversionError;

    /// Construct a [`core::time::Duration`] from a duration of this unit (whole seconds)
    fn try_from(duration: Minutes<T>) -> (r: Result<Self, ConversionError>)
        ensures
            r is Ok <==> spec_convert::<Minutes<T>, Seconds<u64>>(duration) is Ok,
            r matches Err(e) ==> spec_convert::<Minutes<T>, Seconds<u64>>(duration) == Err::<
                nat,
                ConversionError,
            >(e),
            r matches Ok(d) ==> d == core_duration_of_secs(
                spec_convert::<Minutes<T>, Seconds<u64>>(duration)->Ok_0 as u64,
            ),
    {
        match duration.to_core_secs() {
            Ok(secs) => Ok(core_duration_from_secs(secs)),
            Err(e) => Err(e),
        }
    }
}

impl<T: TimeInt> TryFromSpecImpl<Minutes<T>> for core::time::Duration {
    open spec fn obeys_try_from_spec() -> bool {
        true
    }

    open spec fn try_from_spec(duration: Minutes<T>) -> Result<Self, ConversionError> {
        match spec_convert::<Minutes<T>, Seconds<u64>>(duration) {
            Ok(v) => Ok(core_duration_of_secs(v as u64)),
            Err(e) => Err(e),
        }
    }
}

impl<T: TimeInt> TryFrom<core::time::Duration> for Minutes<T> {
    type Error = ConversionError;

    /// Construct a duration of this unit from a [`core::time::Duration`] (whole seconds)
    fn try_from(core_duration: core::time::Duration) -> (r: Result<Self, ConversionError>)
        ensures
            duration_holds(
                r,
                spec_convert::<Seconds<u64>, Self>(Seconds(core_duration_secs(core_duration))),
            ),
    {
        let r = Self::from_core_secs(core_duration_as_secs(&core_duration));
        proof {
            if r is Ok {
                T::lemma_range(r->Ok_0.0, r->Ok_0.0);
                T::lemma_from_nat(r->Ok_0.0.spec_value());
                T::lemma_range(r->Ok_0.0, T::spec_from_nat(r->Ok_0.0.spec_value()));
            }
        }
        r
    }
}

impl<T: TimeInt> TryFromSpecImpl<core::time::Duration> for Minutes<T> {
    open spec fn obeys_try_from_spec() -> bool {
        true
    }

    open spec fn try_from_spec(core_duration: core::time::Duration) -> Result<Self, ConversionError> {
        match spec_convert::<Seconds<u64>, Self>(Seconds(core_duration_secs(core_duration))) {
            Ok(v) => Ok(Minutes(T::spec_from_nat(v))),
            Err(e) => Err(e),
        }
    }
}

/// A duration unit type: 1 second per tick
#[derive(Clone, Copy, Debug, Eq)]
pub struct Seconds<T: TimeInt = u32>(pub T);

impl<T: TimeInt> Seconds<T> {
    /// Construct a new value of this unit
    pub fn new(value: T) -> (r: Self)
        ensures
            r.0 == value,
    {
        Self(value)
    }

    /// Construct this unit from a `Generic` value of any scaling factor (with a positive
    /// denominator)
    ///
    /// # Errors
    ///
    /// As [`from_ticks`]
    pub fn try_from_generic<SourceInt: TimeInt>(generic: Generic<SourceInt>) -> (r: Result<
        Self,
        ConversionError,
    >)
        requires
            generic.spec_scaling_factor().spec_denom() > 0,
        ensures
            match spec_from_ticks(
                generic.spec_integer().spec_value(),
                SourceInt::spec_max(),
                generic.spec_scaling_factor(),
                T::spec_max(),
                Self::spec_scaling_factor(),
            ) {
                Ok(v) => r matches Ok(d) && d.0.spec_value() == v,
                Err(e) => r == Err::<Self, ConversionError>(e),
            },
    {
        from_ticks(*generic.integer(), *generic.scaling_factor())
    }
}

impl<T: TimeInt> Duration for Seconds<T> {

}

impl<T: TimeInt> FixedPoint for Seconds<T> {
    type T = T;

    open spec fn spec_scaling_factor() -> Fraction {
        Fraction::spec_new(1, 1)
    }

    proof fn lemma_scaling_factor() {
        Fraction::lemma_spec_new(1, 1);
    }

    fn scaling_factor() -> (r: Fraction) {
        Fraction::new(1, 1)
    }

    open spec fn spec_integer(self) -> T {
        self.0
    }

    fn new(value: T) -> (r: Self) {
        Self(value)
    }

    fn integer(&self) -> (r: &T) {
        &self.0
    }
}

impl<T: TimeInt, Rhs: FixedPoint> PartialEq<Rhs> for Seconds<T> {
    fn eq(&self, rhs: &Rhs) -> (r: bool) {
        FixedPointOps::eq(self, rhs)
    }
}

impl<T: TimeInt, Rhs: FixedPoint> PartialEqSpecImpl<Rhs> for Seconds<T> {
    open spec fn obeys_eq_spec() -> bool {
        true
    }

    open spec fn eq_spec(&self, rhs: &Rhs) -> bool {
        spec_fixed_eq(*self, *rhs)
    }
}

impl<T: TimeInt, Rhs: FixedPoint> PartialOrd<Rhs> for Seconds<T> {
    fn partial_cmp(&self, rhs: &Rhs) -> (r: Option<Ordering>) {
        FixedPointOps::partial_cmp(self, rhs)
    }
}

impl<T: TimeInt, Rhs: FixedPoint> PartialOrdSpecImpl<Rhs> for Seconds<T> {
    open spec fn obeys_partial_cmp_spec() -> bool {
        true
    }

    open spec fn partial_cmp_spec(&self, rhs: &Rhs) -> Option<Ordering> {
        Some(fixed_order(*self, *rhs))
    }
}

impl<T: TimeInt, Rhs: FixedPoint> core::ops::Add<Rhs> for Seconds<T> {
    type Output = Self;

    /// Returns the sum as the LHS type
    fn add(self, rhs: Rhs) -> (r: Self) {
        let r = FixedPointOps::add(self, rhs);
        proof {
            let v = self.0.spec_value() + spec_convert::<Rhs, Self>(rhs)->Ok_0;
            T::lemma_from_nat(v);
            T::lemma_range(r.0, T::spec_from_nat(v));
        }
        r
    }
}

impl<T: TimeInt, Rhs: FixedPoint> AddSpecImpl<Rhs> for Seconds<T> {
    open spec fn obeys_add_spec() -> bool {
        true
    }

    open spec fn add_req(self, rhs: Rhs) -> bool {
        &&& spec_convert::<Rhs, Self>(rhs) is Ok
        &&& self.0.spec_value() + spec_convert::<Rhs, Self>(rhs)->Ok_0 <= T::spec_max()
    }

    open spec fn add_spec(self, rhs: Rhs) -> Self {
        Seconds(T::spec_from_nat(self.0.spec_value() + spec_convert::<Rhs, Self>(rhs)->Ok_0))
    }
}

impl<T: TimeInt, Rhs: FixedPoint> core::ops::Sub<Rhs> for Seconds<T> {
    type Output = Self;

    /// Returns the difference as the LHS type
    fn sub(self, rhs: Rhs) -> (r: Self) {
        let r = FixedPointOps::sub(self, rhs);
        proof {
            let v = (self.0.spec_value() - spec_convert::<Rhs, Self>(rhs)->Ok_0) as nat;
            T::lemma_range(self.0, self.0);
            T::lemma_from_nat(v);
            T::lemma_range(r.0, T::spec_from_nat(v));
        }
        r
    }
}

impl<T: TimeInt, Rhs: FixedPoint> SubSpecImpl<Rhs> for Seconds<T> {
    open spec fn obeys_sub_spec() -> bool {
        true
    }

    open spec fn sub_req(self, rhs: Rhs) -> bool {
        &&& spec_convert::<Rhs, Self>(rhs) is Ok
        &&& self.0.spec_value() >= spec_convert::<Rhs, Self>(rhs)->Ok_0
    }

    open spec fn sub_spec(self, rhs: Rhs) -> Self {
        Seconds(T::spec_from_nat((self.0.spec_value() - spec_convert::<Rhs, Self>(rhs)->Ok_0) as nat))
    }
}

impl<T: TimeInt, Rhs: FixedPoint> core::ops::Rem<Rhs> for Seconds<T> {
    type Output = Self;

    /// Returns the remainder as the LHS type
    fn rem(self, rhs: Rhs) -> (r: Self) {
        let r = FixedPointOps::rem(self, rhs);
        proof {
            if spec_convert::<Rhs, Self>(rhs) is Ok {
                let v = spec_convert::<Rhs, Self>(rhs)->Ok_0;
                let m: nat = if v > 0 {
                    self.0.spec_value() % v
                } else {
                    0
                };
                T::lemma_range(self.0, self.0);
                T::lemma_from_nat(m);
                T::lemma_range(r.0, T::spec_from_nat(m));
            }
        }
        r
    }
}

impl<T: TimeInt, Rhs: FixedPoint> RemSpecImpl<Rhs> for Seconds<T> {
    open spec fn obeys_rem_spec() -> bool {
        true
    }

    open spec fn rem_req(self, rhs: Rhs) -> bool {
        true
    }

    open spec fn rem_spec(self, rhs: Rhs) -> Self {
        match spec_convert::<Rhs, Self>(rhs) {
            Ok(v) => Seconds(
                T::spec_from_nat(
                    if v > 0 {
                        self.0.spec_value() % v
                    } else {
                        0
                    },
                ),
            ),
            Err(_) => self,
        }
    }
}

impl<SourceInt: TimeInt, DestInt: TimeInt> TryFrom<Generic<SourceInt>> for Seconds<DestInt> {
    type Error = ConversionError;

    /// Construct this unit from a `Generic` value (a scaling factor with a zero denominator is
    /// reported as [`ConversionError::DivByZero`])
    fn try_from(generic: Generic<SourceInt>) -> (r: Result<Self, ConversionError>) {
        if *generic.scaling_factor().denominator() == 0 {
            Err(ConversionError::DivByZero)
        } else {
            let r = Self::try_from_generic(generic);
            proof {
                if r is Ok {
                    DestInt::lemma_range(r->Ok_0.0, r->Ok_0.0);
                    DestInt::lemma_from_nat(r->Ok_0.0.spec_value());
                    DestInt::lemma_range(r->Ok_0.0, DestInt::spec_from_nat(r->Ok_0.0.spec_value()));
                }
            }
            r
        }
    }
}

impl<SourceInt: TimeInt, DestInt: TimeInt> TryFromSpecImpl<Generic<SourceInt>> for Seconds<DestInt> {
    open spec fn obeys_try_from_spec() -> bool {
        true
    }

    open spec fn try_from_spec(generic: Generic<SourceInt>) -> Result<Self, ConversionError> {
        if generic.spec_scaling_factor().spec_denom() == 0 {
            Err(ConversionError::DivByZero)
        } else {
            match spec_from_ticks(
                generic.spec_integer().spec_value(),
                SourceInt::spec_max(),
                generic.spec_scaling_factor(),
                DestInt::spec_max(),
                Fraction::spec_new(1, 1),
            ) {
                Ok(v) => Ok(Seconds(DestInt::spec_from_nat(v))),
                Err(e) => Err(e),
            }
        }
    }
}

impl<T: TimeInt> Seconds<T> {
    /// The whole seconds of this duration (a [`core::time::Duration`] is made of them)
    ///
    /// # Errors
    ///
    /// As [`FixedPointOps::try_convert_from`] into `Seconds<u64>`
    pub fn to_core_secs(self) -> (r: Result<u64, ConversionError>)
        ensures
            match spec_convert::<Self, Seconds<u64>>(self) {
                Ok(v) => r == Ok::<u64, ConversionError>(v as u64),
                Err(e) => r == Err::<u64, ConversionError>(e),
            },
    {
        match Seconds::<u64>::try_convert_from(self) {
            Ok(seconds) => Ok(seconds.0),
            Err(e) => Err(e),
        }
    }

    /// Construct this unit from the whole seconds of a [`core::time::Duration`] (its
    /// sub-second part is dropped)
    ///
    /// # Errors
    ///
    /// As [`FixedPointOps::try_convert_from`] from `Seconds<u64>`
    pub fn from_core_secs(secs: u64) -> (r: Result<Self, ConversionError>)
        ensures
            match spec_convert::<Seconds<u64>, Self>(Seconds(secs)) {
                Ok(v) => r matches Ok(d) && d.0.spec_value() == v,
                Err(e) => r == Err::<Self, ConversionError>(e),
            },
    {
        Self::try_convert_from(Seconds(secs))
    }
}

impl<T: TimeInt> TryFrom<Seconds<T>> for core::time::Duration {
    type Error = ConversionError;

    /// Construct a [`core::time::Duration`] from a duration of this unit (whole seconds)
    fn try_from(duration: Seconds<T>) -> (r: Result<Self, ConversionError>)
        ensures
            r is Ok <==> spec_convert::<Seconds<T>, Seconds<u64>>(duration) is Ok,
            r matches Err(e) ==> spec_convert::<Seconds<T>, Seconds<u64>>(duration) == Err::<
                nat,
                ConversionError,
            >(e),
            r matches Ok(d) ==> d == core_duration_of_secs(
                spec_convert::<Seconds<T>, Seconds<u64>>(duration)->Ok_0 as u64,
            ),
    {
        match duration.to_core_secs() {
            Ok(secs) => Ok(core_duration_from_secs(secs)),
            Err(e) => Err(e),
        }
    }
}

impl<T: TimeInt> TryFromSpecImpl<Seconds<T>> for core::time::Duration {
    open spec fn obeys_try_from_spec() -> bool {
        true
    }

    open spec fn try_from_spec(duration: Seconds<T>) -> Result<Self, ConversionError> {
        match spec_convert::<Seconds<T>, Seconds<u64>>(duration) {
            Ok(v) => Ok(core_duration_of_secs(v as u64)),
            Err(e) => Err(e),
        }
    }
}

impl<T: TimeInt> TryFrom<core::time::Duration> for Seconds<T> {
    type Error = ConversionError;

    /// Construct a duration of this unit from a [`core::time::Duration`] (whole seconds)
    fn try_from(core_duration: core::time::Duration) -> (r: Result<Self, ConversionError>)
        ensures
            duration_holds(
                r,
                spec_convert::<Seconds<u64>, Self>(Seconds(core_duration_secs(core_duration))),
            ),
    {
        let r = Self::from_core_secs(core_duration_as_secs(&core_duration));
        proof {
            if r is Ok {
                T::lemma_range(r->Ok_0.0, r->Ok_0.0);
                T::lemma_from_nat(r->Ok_0.0.spec_value());
                T::lemma_range(r->Ok_0.0, T::spec_from_nat(r->Ok_0.0.spec_value()));
            }
        }
        r
    }
}

impl<T: TimeInt> TryFromSpecImpl<core::time::Duration> for Seconds<T> {
    open spec fn obeys_try_from_spec() -> bool {
        true
    }

    open spec fn try_from_spec(core_duration: core::time::Duration) -> Result<Self, ConversionError> {
        match spec_convert::<Seconds<u64>, Self>(Seconds(core_duration_secs(core_duration))) {
            Ok(v) => Ok(Seconds(T::spec_from_nat(v))),
            Err(e) => Err(e),
        }
    }
}

/// A duration unit type: 1/1,000 second per tick
#[derive(Clone, Copy, Debug, Eq)]
pub struct Milliseconds<T: TimeInt = u32>(pub T);

impl<T: TimeInt> Milliseconds<T> {
    /// Construct a new value of this unit
    pub fn new(value: T) -> (r: Self)
        ensures
            r.0 == value,
    {
        Self(value)
    }

    /// Construct this unit from a `Generic` value of any scaling factor (with a positive
    /// denominator)
    ///
    /// # Errors
    ///
    /// As [`from_ticks`]
    pub fn try_from_generic<SourceInt: TimeInt>(generic: Generic<SourceInt>) -> (r: Result<
        Self,
        ConversionError,
    >)
        requires
            generic.spec_scaling_factor().spec_denom() > 0,
        ensures
            match spec_from_ticks(
                generic.spec_integer().spec_value(),
                SourceInt::spec_max(),
                generic.spec_scaling_factor(),
                T::spec_max(),
                Self::spec_scaling_factor(),
            ) {
                Ok(v) => r matches Ok(d) && d.0.spec_value() == v,
                Err(e) => r == Err::<Self, ConversionError>(e),
            },
    {
        from_ticks(*generic.integer(), *generic.scaling_factor())
    }
}

impl<T: TimeInt> Duration for Milliseconds<T> {

}

impl<T: TimeInt> FixedPoint for Milliseconds<T> {
    type T = T;

    open spec fn spec_scaling_factor() -> Fraction {
        Fraction::spec_new(1, 1000)
    }

    proof fn lemma_scaling_factor() {
        Fraction::lemma_spec_new(1, 1000);
    }

    fn scaling_factor() -> (r: Fraction) {
        Fraction::new(1, 1000)
    }

    open spec fn spec_integer(self) -> T {
        self.0
    }

    fn new(value: T) -> (r: Self) {
        Self(value)
    }

    fn integer(&self) -> (r: &T) {
        &self.0
    }
}

impl<T: TimeInt, Rhs: FixedPoint> PartialEq<Rhs> for Milliseconds<T> {
    fn eq(&self, rhs: &Rhs) -> (r: bool) {
        FixedPointOps::eq(self, rhs)
    }
}

impl<T: TimeInt, Rhs: FixedPoint> PartialEqSpecImpl<Rhs> for Milliseconds<T> {
    open spec fn obeys_eq_spec() -> bool {
        true
    }

    open spec fn eq_spec(&self, rhs: &Rhs) -> bool {
        spec_fixed_eq(*self, *rhs)
    }
}

impl<T: TimeInt, Rhs: FixedPoint> PartialOrd<Rhs> for Milliseconds<T> {
    fn partial_cmp(&self, rhs: &Rhs) -> (r: Option<Ordering>) {
        FixedPointOps::partial_cmp(self, rhs)
    }
}

impl<T: TimeInt, Rhs: FixedPoint> PartialOrdSpecImpl<Rhs> for Milliseconds<T> {
    open spec fn obeys_partial_cmp_spec() -> bool {
        true
    }

    open spec fn partial_cmp_spec(&self, rhs: &Rhs) -> Option<Ordering> {
        Some(fixed_order(*self, *rhs))
    }
}

impl<T: TimeInt, Rhs: FixedPoint> core::ops::Add<Rhs> for Milliseconds<T> {
    type Output = Self;

    /// Returns the sum as the LHS type
    fn add(self, rhs: Rhs) -> (r: Self) {
        let r = FixedPointOps::add(self, rhs);
        proof {
            let v = self.0.spec_value() + spec_convert::<Rhs, Self>(rhs)->Ok_0;
            T::lemma_from_nat(v);
            T::lemma_range(r.0, T::spec_from_nat(v));
        }
        r
    }
}

impl<T: TimeInt, Rhs: FixedPoint> AddSpecImpl<Rhs> for Milliseconds<T> {
    open spec fn obeys_add_spec() -> bool {
        true
    }

    open spec fn add_req(self, rhs: Rhs) -> bool {
        &&& spec_convert::<Rhs, Self>(rhs) is Ok
        &&& self.0.spec_value() + spec_convert::<Rhs, Self>(rhs)->Ok_0 <= T::spec_max()
    }

    open spec fn add_spec(self, rhs: Rhs) -> Self {
        Milliseconds(T::spec_from_nat(self.0.spec_value() + spec_convert::<Rhs, Self>(rhs)->Ok_0))
    }
}

impl<T: TimeInt, Rhs: FixedPoint> core::ops::Sub<Rhs> for Milliseconds<T> {
    type Output = Self;

    /// Returns the difference as the LHS type
    fn sub(self, rhs: Rhs) -> (r: Self) {
        let r = FixedPointOps::sub(self, rhs);
        proof {
            let v = (self.0.spec_value() - spec_convert::<Rhs, Self>(rhs)->Ok_0) as nat;
            T::lemma_range(self.0, self.0);
            T::lemma_from_nat(v);
            T::lemma_range(r.0, T::spec_from_nat(v));
        }
        r
    }
}

impl<T: TimeInt, Rhs: FixedPoint> SubSpecImpl<Rhs> for Milliseconds<T> {
    open spec fn obeys_sub_spec() -> bool {
        true
    }

    open spec fn sub_req(self, rhs: Rhs) -> bool {
        &&& spec_convert::<Rhs, Self>(rhs) is Ok
        &&& self.0.spec_value() >= spec_convert::<Rhs, Self>(rhs)->Ok_0
    }

    open spec fn sub_spec(self, rhs: Rhs) -> Self {
        Milliseconds(T::spec_from_nat((self.0.spec_value() - spec_convert::<Rhs, Self>(rhs)->Ok_0) as nat))
    }
}

impl<T: TimeInt, Rhs: FixedPoint> core::ops::Rem<Rhs> for Milliseconds<T> {
    type Output = Self;

    /// Returns the remainder as the LHS type
    fn rem(self, rhs: Rhs) -> (r: Self) {
        let r = FixedPointOps::rem(self, rhs);
        proof {
            if spec_convert::<Rhs, Self>(rhs) is Ok {
                let v = spec_convert::<Rhs, Self>(rhs)->Ok_0;
                let m: nat = if v > 0 {
                    self.0.spec_value() % v
                } else {
                    0
                };
                T::lemma_range(self.0, self.0);
                T::lemma_from_nat(m);
                T::lemma_range(r.0, T::spec_from_nat(m));
            }
        }
        r
    }
}

impl<T: TimeInt, Rhs: FixedPoint> RemSpecImpl<Rhs> for Milliseconds<T> {
    open spec fn obeys_rem_spec() -> bool {
        true
    }

    open spec fn rem_req(self, rhs: Rhs) -> bool {
        true
    }

    open spec fn rem_spec(self, rhs: Rhs) -> Self {
        match spec_convert::<Rhs, Self>(rhs) {
            Ok(v) => Milliseconds(
                T::spec_from_nat(
                    if v > 0 {
                        self.0.spec_value() % v
                    } else {
                        0
                    },
                ),
            ),
            Err(_) => self,
        }
    }
}

impl<SourceInt: TimeInt, DestInt: TimeInt> TryFrom<Generic<SourceInt>> for Milliseconds<DestInt> {
    type Error = ConversionError;

    /// Construct this unit from a `Generic` value (a scaling factor with a zero denominator is
    /// reported as [`ConversionError::DivByZero`])
    fn try_from(generic: Generic<SourceInt>) -> (r: Result<Self, ConversionError>) {
        if *generic.scaling_factor().denominator() == 0 {
            Err(ConversionError::DivByZero)
        } else {
            let r = Self::try_from_generic(generic);
            proof {
                if r is Ok {
                    DestInt::lemma_range(r->Ok_0.0, r->Ok_0.0);
                    DestInt::lemma_from_nat(r->Ok_0.0.spec_value());
                    DestInt::lemma_range(r->Ok_0.0, DestInt::spec_from_nat(r->Ok_0.0.spec_value()));
                }
            }
            r
        }
    }
}

impl<SourceInt: TimeInt, DestInt: TimeInt> TryFromSpecImpl<Generic<SourceInt>> for Milliseconds<DestInt> {
    open spec fn obeys_try_from_spec() -> bool {
        true
    }

    open spec fn try_from_spec(generic: Generic<SourceInt>) -> Result<Self, ConversionError> {
        if generic.spec_scaling_factor().spec_denom() == 0 {
            Err(ConversionError::DivByZero)
        } else {
            match spec_from_ticks(
                generic.spec_integer().spec_value(),
                SourceInt::spec_max(),
                generic.spec_scaling_factor(),
                DestInt::spec_max(),
                Fraction::spec_new(1, 1000),
            ) {
                Ok(v) => Ok(Milliseconds(DestInt::spec_from_nat(v))),
                Err(e) => Err(e),
            }
        }
    }
}

impl<T: TimeInt> Milliseconds<T> {
    /// The number of ticks of this duration, as a [`core::time::Duration`] is built from it
    pub fn to_core_count(self) -> (r: u64)
        ensures
            r == self.0.spec_value(),
    {
        self.0.to_u64()
    }

    /// Construct this unit from a whole number of ticks of a [`core::time::Duration`]
    ///
    /// # Errors
    ///
    /// [`ConversionError::ConversionFailure`] : The count doesn't fit in the integer type
    pub fn from_core_count(count: u128) -> (r: Result<Self, ConversionError>)
        ensures
            count <= T::spec_max() ==> (r matches Ok(d) && d.0.spec_value() == count),
            count > T::spec_max() ==> r == Err::<Self, ConversionError>(
                ConversionError::ConversionFailure,
            ),
    {
        proof {
            T::lemma_max();
        }
        if count <= u64::MAX as u128 {
            match T::try_from_u64(count as u64) {
                Some(value) => Ok(Self(value)),
                None => Err(ConversionError::ConversionFailure),
            }
        } else {
            Err(ConversionError::ConversionFailure)
        }
    }
}

impl<T: TimeInt> TryFrom<Milliseconds<T>> for core::time::Duration {
    type Error = ConversionError;

    /// Construct a [`core::time::Duration`] from a duration of this unit
    fn try_from(duration: Milliseconds<T>) -> (r: Result<Self, ConversionError>)
        ensures
            r == Ok::<Self, ConversionError>(core_duration_of_millis(duration.0.spec_value() as u64)),
    {
        Ok(core_duration_from_millis(duration.to_core_count()))
    }
}

impl<T: TimeInt> TryFromSpecImpl<Milliseconds<T>> for core::time::Duration {
    open spec fn obeys_try_from_spec() -> bool {
        true
    }

    open spec fn try_from_spec(duration: Milliseconds<T>) -> Result<Self, ConversionError> {
        Ok(core_duration_of_millis(duration.0.spec_value() as u64))
    }
}

impl<T: TimeInt> TryFrom<core::time::Duration> for Milliseconds<T> {
    type Error = ConversionError;

    /// Construct a duration of this unit from a [`core::time::Duration`] (truncated)
    fn try_from(core_duration: core::time::Duration) -> (r: Result<Self, ConversionError>)
        ensures
            core_duration_millis(core_duration) <= T::spec_max() ==> (r matches Ok(d) && d.0.spec_value()
                == core_duration_millis(core_duration)),
            core_duration_millis(core_duration) > T::spec_max() ==> r == Err::<Self, ConversionError>(
                ConversionError::ConversionFailure,
            ),
    {
        let r = Self::from_core_count(core_duration_as_millis(&core_duration));
        proof {
            if r is Ok {
                T::lemma_range(r->Ok_0.0, r->Ok_0.0);
                T::lemma_from_nat(r->Ok_0.0.spec_value());
                T::lemma_range(r->Ok_0.0, T::spec_from_nat(r->Ok_0.0.spec_value()));
            }
        }
        r
    }
}

impl<T: TimeInt> TryFromSpecImpl<core::time::Duration> for Milliseconds<T> {
    open spec fn obeys_try_from_spec() -> bool {
        true
    }

    open spec fn try_from_spec(core_duration: core::time::Duration) -> Result<Self, ConversionError> {
        if core_duration_millis(core_duration) <= T::spec_max() {
            Ok(Milliseconds(T::spec_from_nat(core_duration_millis(core_duration) as nat)))
        } else {
            Err(ConversionError::ConversionFailure)
        }
    }
}

/// A duration unit type: 1/1,000,000 second per tick
#[derive(Clone, Copy, Debug, Eq)]
pub struct Microseconds<T: TimeInt = u32>(pub T);

impl<T: TimeInt> Microseconds<T> {
    /// Construct a new value of this unit
    pub fn new(value: T) -> (r: Self)
        ensures
            r.0 == value,
    {
        Self(value)
    }

    /// Construct this unit from a `Generic` value of any scaling factor (with a positive
    /// denominator)
    ///
    /// # Errors
    ///
    /// As [`from_ticks`]
    pub fn try_from_generic<SourceInt: TimeInt>(generic: Generic<SourceInt>) -> (r: Result<
        Self,
        ConversionError,
    >)
        requires
            generic.spec_scaling_factor().spec_denom() > 0,
        ensures
            match spec_from_ticks(
                generic.spec_integer().spec_value(),
                SourceInt::spec_max(),
                generic.spec_scaling_factor(),
                T::spec_max(),
                Self::spec_scaling_factor(),
            ) {
                Ok(v) => r matches Ok(d) && d.0.spec_value() == v,
                Err(e) => r == Err::<Self, ConversionError>(e),
            },
    {
        from_ticks(*generic.integer(), *generic.scaling_factor())
    }
}

impl<T: TimeInt> Duration for Microseconds<T> {

}

impl<T: TimeInt> FixedPoint for Microseconds<T> {
    type T = T;

    open spec fn spec_scaling_factor() -> Fraction {
        Fraction::spec_new(1, 1000000)
    }

    proof fn lemma_scaling_factor() {
        Fraction::lemma_spec_new(1, 1000000);
    }

    fn scaling_factor() -> (r: Fraction) {
        Fraction::new(1, 1000000)
    }

    open spec fn spec_integer(self) -> T {
        self.0
    }

    fn new(value: T) -> (r: Self) {
        Self(value)
    }

    fn integer(&self) -> (r: &T) {
        &self.0
    }
}

impl<T: TimeInt, Rhs: FixedPoint> PartialEq<Rhs> for Microseconds<T> {
    fn eq(&self, rhs: &Rhs) -> (r: bool) {
        FixedPointOps::eq(self, rhs)
    }
}

impl<T: TimeInt, Rhs: FixedPoint> PartialEqSpecImpl<Rhs> for Microseconds<T> {
    open spec fn obeys_eq_spec() -> bool {
        true
    }

    open spec fn eq_spec(&self, rhs: &Rhs) -> bool {
        spec_fixed_eq(*self, *rhs)
    }
}

impl<T: TimeInt, Rhs: FixedPoint> PartialOrd<Rhs> for Microseconds<T> {
    fn partial_cmp(&self, rhs: &Rhs) -> (r: Option<Ordering>) {
        FixedPointOps::partial_cmp(self, rhs)
    }
}

impl<T: TimeInt, Rhs: FixedPoint> PartialOrdSpecImpl<Rhs> for Microseconds<T> {
    open spec fn obeys_partial_cmp_spec() -> bool {
        true
    }

    open spec fn partial_cmp_spec(&self, rhs: &Rhs) -> Option<Ordering> {
        Some(fixed_order(*self, *rhs))
    }
}

impl<T: TimeInt, Rhs: FixedPoint> core::ops::Add<Rhs> for Microseconds<T> {
    type Output = Self;

    /// Returns the sum as the LHS type
    fn add(self, rhs: Rhs) -> (r: Self) {
        let r = FixedPointOps::add(self, rhs);
        proof {
            let v = self.0.spec_value() + spec_convert::<Rhs, Self>(rhs)->Ok_0;
            T::lemma_from_nat(v);
            T::lemma_range(r.0, T::spec_from_nat(v));
        }
        r
    }
}

impl<T: TimeInt, Rhs: FixedPoint> AddSpecImpl<Rhs> for Microseconds<T> {
    open spec fn obeys_add_spec() -> bool {
        true
    }

    open spec fn add_req(self, rhs: Rhs) -> bool {
        &&& spec_convert::<Rhs, Self>(rhs) is Ok
        &&& self.0.spec_value() + spec_convert::<Rhs, Self>(rhs)->Ok_0 <= T::spec_max()
    }

    open spec fn add_spec(self, rhs: Rhs) -> Self {
        Microseconds(T::spec_from_nat(self.0.spec_value() + spec_convert::<Rhs, Self>(rhs)->Ok_0))
    }
}

impl<T: TimeInt, Rhs: FixedPoint> core::ops::Sub<Rhs> for Microseconds<T> {
    type Output = Self;

    /// Returns the difference as the LHS type
    fn sub(self, rhs: Rhs) -> (r: Self) {
        let r = FixedPointOps::sub(self, rhs);
        proof {
            let v = (self.0.spec_value() - spec_convert::<Rhs, Self>(rhs)->Ok_0) as nat;
            T::lemma_range(self.0, self.0);
            T::lemma_from_nat(v);
            T::lemma_range(r.0, T::spec_from_nat(v));
        }
        r
    }
}

impl<T: TimeInt, Rhs: FixedPoint> SubSpecImpl<Rhs> for Microseconds<T> {
    open spec fn obeys_sub_spec() -> bool {
        true
    }

    open spec fn sub_req(self, rhs: Rhs) -> bool {
        &&& spec_convert::<Rhs, Self>(rhs) is Ok
        &&& self.0.spec_value() >= spec_convert::<Rhs, Self>(rhs)->Ok_0
    }

    open spec fn sub_spec(self, rhs: Rhs) -> Self {
        Microseconds(T::spec_from_nat((self.0.spec_value() - spec_convert::<Rhs, Self>(rhs)->Ok_0) as nat))
    }
}

impl<T: TimeInt, Rhs: FixedPoint> core::ops::Rem<Rhs> for Microseconds<T> {
    type Output = Self;

    /// Returns the remainder as the LHS type
    fn rem(self, rhs: Rhs) -> (r: Self) {
        let r = FixedPointOps::rem(self, rhs);
        proof {
            if spec_convert::<Rhs, Self>(rhs) is Ok {
                let v = spec_convert::<Rhs, Self>(rhs)->Ok_0;
                let m: nat = if v > 0 {
                    self.0.spec_value() % v
                } else {
                    0
                };
                T::lemma_range(self.0, self.0);
                T::lemma_from_nat(m);
                T::lemma_range(r.0, T::spec_from_nat(m));
            }
        }
        r
    }
}

impl<T: TimeInt, Rhs: FixedPoint> RemSpecImpl<Rhs> for Microseconds<T> {
    open spec fn obeys_rem_spec() -> bool {
        true
    }

    open spec fn rem_req(self, rhs: Rhs) -> bool {
        true
    }

    open spec fn rem_spec(self, rhs: Rhs) -> Self {
        match spec_convert::<Rhs, Self>(rhs) {
            Ok(v) => Microseconds(
                T::spec_from_nat(
                    if v > 0 {
                        self.0.spec_value() % v
                    } else {
                        0
                    },
                ),
            ),
            Err(_) => self,
        }
    }
}

impl<SourceInt: TimeInt, DestInt: TimeInt> TryFrom<Generic<SourceInt>> for Microseconds<DestInt> {
    type Error = ConversionError;

    /// Construct this unit from a `Generic` value (a scaling factor with a zero denominator is
    /// reported as [`ConversionError::DivByZero`])
    fn try_from(generic: Generic<SourceInt>) -> (r: Result<Self, ConversionError>) {
        if *generic.scaling_factor().denominator() == 0 {
            Err(ConversionError::DivByZero)
        } else {
            let r = Self::try_from_generic(generic);
            proof {
                if r is Ok {
                    DestInt::lemma_range(r->Ok_0.0, r->Ok_0.0);
                    DestInt::lemma_from_nat(r->Ok_0.0.spec_value());
                    DestInt::lemma_range(r->Ok_0.0, DestInt::spec_from_nat(r->Ok_0.0.spec_value()));
                }
            }
            r
        }
    }
}

impl<SourceInt: TimeInt, DestInt: TimeInt> TryFromSpecImpl<Generic<SourceInt>> for Microseconds<DestInt> {
    open spec fn obeys_try_from_spec() -> bool {
        true
    }

    open spec fn try_from_spec(generic: Generic<SourceInt>) -> Result<Self, ConversionError> {
        if generic.spec_scaling_factor().spec_denom() == 0 {
            Err(ConversionError::DivByZero)
        } else {
            match spec_from_ticks(
                generic.spec_integer().spec_value(),
                SourceInt::spec_max(),
                generic.spec_scaling_factor(),
                DestInt::spec_max(),
                Fraction::spec_new(1, 1000000),
            ) {
                Ok(v) => Ok(Microseconds(DestInt::spec_from_nat(v))),
                Err(e) => Err(e),
            }
        }
    }
}

impl<T: TimeInt> Microseconds<T> {
    /// The number of ticks of this duration, as a [`core::time::Duration`] is built from it
    pub fn to_core_count(self) -> (r: u64)
        ensures
            r == self.0.spec_value(),
    {
        self.0.to_u64()
    }

    /// Construct this unit from a whole number of ticks of a [`core::time::Duration`]
    ///
    /// # Errors
    ///
    /// [`ConversionError::ConversionFailure`] : The count doesn't fit in the integer type
    pub fn from_core_count(count: u128) -> (r: Result<Self, ConversionError>)
        ensures
            count <= T::spec_max() ==> (r matches Ok(d) && d.0.spec_value() == count),
            count > T::spec_max() ==> r == Err::<Self, ConversionError>(
                ConversionError::ConversionFailure,
            ),
    {
        proof {
            T::lemma_max();
        }
        if count <= u64::MAX as u128 {
            match T::try_from_u64(count as u64) {
                Some(value) => Ok(Self(value)),
                None => Err(ConversionError::ConversionFailure),
            }
        } else {
            Err(ConversionError::ConversionFailure)
        }
    }
}

impl<T: TimeInt> TryFrom<Microseconds<T>> for core::time::Duration {
    type Error = ConversionError;

    /// Construct a [`core::time::Duration`] from a duration of this unit
    fn try_from(duration: Microseconds<T>) -> (r: Result<Self, ConversionError>)
        ensures
            r == Ok::<Self, ConversionError>(core_duration_of_micros(duration.0.spec_value() as u64)),
    {
        Ok(core_duration_from_micros(duration.to_core_count()))
    }
}

impl<T: TimeInt> TryFromSpecImpl<Microseconds<T>> for core::time::Duration {
    open spec fn obeys_try_from_spec() -> bool {
        true
    }

    open spec fn try_from_spec(duration: Microseconds<T>) -> Result<Self, ConversionError> {
        Ok(core_duration_of_micros(duration.0.spec_value() as u64))
    }
}

impl<T: TimeInt> TryFrom<core::time::Duration> for Microseconds<T> {
    type Error = ConversionError;

    /// Construct a duration of this unit from a [`core::time::Duration`] (truncated)
    fn try_from(core_duration: core::time::Duration) -> (r: Result<Self, ConversionError>)
        ensures
            core_duration_micros(core_duration) <= T::spec_max() ==> (r matches Ok(d) && d.0.spec_value()
                == core_duration_micros(core_duration)),
            core_duration_micros(core_duration) > T::spec_max() ==> r == Err::<Self, ConversionError>(
                ConversionError::ConversionFailure,
            ),
    {
        let r = Self::from_core_count(core_duration_as_micros(&core_duration));
        proof {
            if r is Ok {
                T::lemma_range(r->Ok_0.0, r->Ok_0.0);
                T::lemma_from_nat(r->Ok_0.0.spec_value());
                T::lemma_range(r->Ok_0.0, T::spec_from_nat(r->Ok_0.0.spec_value()));
            }
        }
        r
    }
}

impl<T: TimeInt> TryFromSpecImpl<core::time::Duration> for Microseconds<T> {
    open spec fn obeys_try_from_spec() -> bool {
        true
    }

    open spec fn try_from_spec(core_duration: core::time::Duration) -> Result<Self, ConversionError> {
        if core_duration_micros(core_duration) <= T::spec_max() {
            Ok(Microseconds(T::spec_from_nat(core_duration_micros(core_duration) as nat)))
        } else {
            Err(ConversionError::ConversionFailure)
        }
    }
}

/// A duration unit type: 1/1,000,000,000 second per tick
#[derive(Clone, Copy, Debug, Eq)]
pub struct Nanoseconds<T: TimeInt = u32>(pub T);

impl<T: TimeInt> Nanoseconds<T> {
    /// Construct a new value of this unit
    pub fn new(value: T) -> (r: Self)
        ensures
            r.0 == value,
    {
        Self(value)
    }

    /// Construct this unit from a `Generic` value of any scaling factor (with a positive
    /// denominator)
    ///
    /// # Errors
    ///
    /// As [`from_ticks`]
    pub fn try_from_generic<SourceInt: TimeInt>(generic: Generic<SourceInt>) -> (r: Result<
        Self,
        ConversionError,
    >)
        requires
            generic.spec_scaling_factor().spec_denom() > 0,
        ensures
            match spec_from_ticks(
                generic.spec_integer().spec_value(),
                SourceInt::spec_max(),
                generic.spec_scaling_factor(),
                T::spec_max(),
                Self::spec_scaling_factor(),
            ) {
                Ok(v) => r matches Ok(d) && d.0.spec_value() == v,
                Err(e) => r == Err::<Self, ConversionError>(e),
            },
    {
        from_ticks(*generic.integer(), *generic.scaling_factor())
    }
}

impl<T: TimeInt> Duration for Nanoseconds<T> {

}

impl<T: TimeInt> FixedPoint for Nanoseconds<T> {
    type T = T;

    open spec fn spec_scaling_factor() -> Fraction {
        Fraction::spec_new(1, 1000000000)
    }

    proof fn lemma_scaling_factor() {
        Fraction::lemma_spec_new(1, 1000000000);
    }

    fn scaling_factor() -> (r: Fraction) {
        Fraction::new(1, 1000000000)
    }

    open spec fn spec_integer(self) -> T {
        self.0
    }

    fn new(value: T) -> (r: Self) {
        Self(value)
    }

    fn integer(&self) -> (r: &T) {
        &self.0
    }
}

impl<T: TimeInt, Rhs: FixedPoint> PartialEq<Rhs> for Nanoseconds<T> {
    fn eq(&self, rhs: &Rhs) -> (r: bool) {
        FixedPointOps::eq(self, rhs)
    }
}

impl<T: TimeInt, Rhs: FixedPoint> PartialEqSpecImpl<Rhs> for Nanoseconds<T> {
    open spec fn obeys_eq_spec() -> bool {
        true
    }

    open spec fn eq_spec(&self, rhs: &Rhs) -> bool {
        spec_fixed_eq(*self, *rhs)
    }
}

impl<T: TimeInt, Rhs: FixedPoint> PartialOrd<Rhs> for Nanoseconds<T> {
    fn partial_cmp(&self, rhs: &Rhs) -> (r: Option<Ordering>) {
        FixedPointOps::partial_cmp(self, rhs)
    }
}

impl<T: TimeInt, Rhs: FixedPoint> PartialOrdSpecImpl<Rhs> for Nanoseconds<T> {
    open spec fn obeys_partial_cmp_spec() -> bool {
        true
    }

    open spec fn partial_cmp_spec(&self, rhs: &Rhs) -> Option<Ordering> {
        Some(fixed_order(*self, *rhs))
    }
}

impl<T: TimeInt, Rhs: FixedPoint> core::ops::Add<Rhs> for Nanoseconds<T> {
    type Output = Self;

    /// Returns the sum as the LHS type
    fn add(self, rhs: Rhs) -> (r: Self) {
        let r = FixedPointOps::add(self, rhs);
        proof {
            let v = self.0.spec_value() + spec_convert::<Rhs, Self>(rhs)->Ok_0;
            T::lemma_from_nat(v);
            T::lemma_range(r.0, T::spec_from_nat(v));
        }
        r
    }
}

impl<T: TimeInt, Rhs: FixedPoint> AddSpecImpl<Rhs> for Nanoseconds<T> {
    open spec fn obeys_add_spec() -> bool {
        true
    }

    open spec fn add_req(self, rhs: Rhs) -> bool {
        &&& spec_convert::<Rhs, Self>(rhs) is Ok
        &&& self.0.spec_value() + spec_convert::<Rhs, Self>(rhs)->Ok_0 <= T::spec_max()
    }

    open spec fn add_spec(self, rhs: Rhs) -> Self {
        Nanoseconds(T::spec_from_nat(self.0.spec_value() + spec_convert::<Rhs, Self>(rhs)->Ok_0))
    }
}

impl<T: TimeInt, Rhs: FixedPoint> core::ops::Sub<Rhs> for Nanoseconds<T> {
    type Output = Self;

    /// Returns the difference as the LHS type
    fn sub(self, rhs: Rhs) -> (r: Self) {
        let r = FixedPointOps::sub(self, rhs);
        proof {
            let v = (self.0.spec_value() - spec_convert::<Rhs, Self>(rhs)->Ok_0) as nat;
            T::lemma_range(self.0, self.0);
            T::lemma_from_nat(v);
            T::lemma_range(r.0, T::spec_from_nat(v));
        }
        r
    }
}

impl<T: TimeInt, Rhs: FixedPoint> SubSpecImpl<Rhs> for Nanoseconds<T> {
    open spec fn obeys_sub_spec() -> bool {
        true
    }

    open spec fn sub_req(self, rhs: Rhs) -> bool {
        &&& spec_convert::<Rhs, Self>(rhs) is Ok
        &&& self.0.spec_value() >= spec_convert::<Rhs, Self>(rhs)->Ok_0
    }

    open spec fn sub_spec(self, rhs: Rhs) -> Self {
        Nanoseconds(T::spec_from_nat((self.0.spec_value() - spec_convert::<Rhs, Self>(rhs)->Ok_0) as nat))
    }
}

impl<T: TimeInt, Rhs: FixedPoint> core::ops::Rem<Rhs> for Nanoseconds<T> {
    type Output = Self;

    /// Returns the remainder as the LHS type
    fn rem(self, rhs: Rhs) -> (r: Self) {
        let r = FixedPointOps::rem(self, rhs);
        proof {
            if spec_convert::<Rhs, Self>(rhs) is Ok {
                let v = spec_convert::<Rhs, Self>(rhs)->Ok_0;
                let m: nat = if v > 0 {
                    self.0.spec_value() % v
                } else {
                    0
                };
                T::lemma_range(self.0, self.0);
                T::lemma_from_nat(m);
                T::lemma_range(r.0, T::spec_from_nat(m));
            }
        }
        r
    }
}

impl<T: TimeInt, Rhs: FixedPoint> RemSpecImpl<Rhs> for Nanoseconds<T> {
    open spec fn obeys_rem_spec() -> bool {
        true
    }

    open spec fn rem_req(self, rhs: Rhs) -> bool {
        true
    }

    open spec fn rem_spec(self, rhs: Rhs) -> Self {
        match spec_convert::<Rhs, Self>(rhs) {
            Ok(v) => Nanoseconds(
                T::spec_from_nat(
                    if v > 0 {
                        self.0.spec_value() % v
                    } else {
                        0
                    },
                ),
            ),
            Err(_) => self,
        }
    }
}

impl<SourceInt: TimeInt, DestInt: TimeInt> TryFrom<Generic<SourceInt>> for Nanoseconds<DestInt> {
    type Error = ConversionError;

    /// Construct this unit from a `Generic` value (a scaling factor with a zero denominator is
    /// reported as [`ConversionError::DivByZero`])
    fn try_from(generic: Generic<SourceInt>) -> (r: Result<Self, ConversionError>) {
        if *generic.scaling_factor().denominator() == 0 {
            Err(ConversionError::DivByZero)
        } else {
            let r = Self::try_from_generic(generic);
            proof {
                if r is Ok {
                    DestInt::lemma_range(r->Ok_0.0, r->Ok_0.0);
                    DestInt::lemma_from_nat(r->Ok_0.0.spec_value());
                    DestInt::lemma_range(r->Ok_0.0, DestInt::spec_from_nat(r->Ok_0.0.spec_value()));
                }
            }
            r
        }
    }
}

impl<SourceInt: TimeInt, DestInt: TimeInt> TryFromSpecImpl<Generic<SourceInt>> for Nanoseconds<DestInt> {
    open spec fn obeys_try_from_spec() -> bool {
        true
    }

    open spec fn try_from_spec(generic: Generic<SourceInt>) -> Result<Self, ConversionError> {
        if generic.spec_scaling_factor().spec_denom() == 0 {
            Err(ConversionError::DivByZero)
        } else {
            match spec_from_ticks(
                generic.spec_integer().spec_value(),
                SourceInt::spec_max(),
                generic.spec_scaling_factor(),
                DestInt::spec_max(),
                Fraction::spec_new(1, 1000000000),
            ) {
                Ok(v) => Ok(Nanoseconds(DestInt::spec_from_nat(v))),
                Err(e) => Err(e),
            }
        }
    }
}

impl<T: TimeInt> Nanoseconds<T> {
    /// The number of ticks of this duration, as a [`core::time::Duration`] is built from it
    pub fn to_core_count(self) -> (r: u64)
        ensures
            r == self.0.spec_value(),
    {
        self.0.to_u64()
    }

    /// Construct this unit from a whole number of ticks of a [`core::time::Duration`]
    ///
    /// # Errors
    ///
    /// [`ConversionError::ConversionFailure`] : The count doesn't fit in the integer type
    pub fn from_core_count(count: u128) -> (r: Result<Self, ConversionError>)
        ensures
            count <= T::spec_max() ==> (r matches Ok(d) && d.0.spec_value() == count),
            count > T::spec_max() ==> r == Err::<Self, ConversionError>(
                ConversionError::ConversionFailure,
            ),
    {
        proof {
            T::lemma_max();
        }
        if count <= u64::MAX as u128 {
            match T::try_from_u64(count as u64) {
                Some(value) => Ok(Self(value)),
                None => Err(ConversionError::ConversionFailure),
            }
        } else {
            Err(ConversionError::ConversionFailure)
        }
    }
}

impl<T: TimeInt> TryFrom<Nanoseconds<T>> for core::time::Duration {
    type Error = ConversionError;

    /// Construct a [`core::time::Duration`] from a duration of this unit
    fn try_from(duration: Nanoseconds<T>) -> (r: Result<Self, ConversionError>)
        ensures
            r == Ok::<Self, ConversionError>(core_duration_of_nanos(duration.0.spec_value() as u64)),
    {
        Ok(core_duration_from_nanos(duration.to_core_count()))
    }
}

impl<T: TimeInt> TryFromSpecImpl<Nanoseconds<T>> for core::time::Duration {
    open spec fn obeys_try_from_spec() -> bool {
        true
    }

    open spec fn try_from_spec(duration: Nanoseconds<T>) -> Result<Self, ConversionError> {
        Ok(core_duration_of_nanos(duration.0.spec_value() as u64))
    }
}

impl<T: TimeInt> TryFrom<core::time::Duration> for Nanoseconds<T> {
    type Error = ConversionError;

    /// Construct a duration of this unit from a [`core::time::Duration`] (truncated)
    fn try_from(core_duration: core::time::Duration) -> (r: Result<Self, ConversionError>)
        ensures
            core_duration_nanos(core_duration) <= T::spec_max() ==> (r matches Ok(d) && d.0.spec_value()
                == core_duration_nanos(core_duration)),
            core_duration_nanos(core_duration) > T::spec_max() ==> r == Err::<Self, ConversionError>(
                ConversionError::ConversionFailure,
            ),
    {
        let r = Self::from_core_count(core_duration_as_nanos(&core_duration));
        proof {
            if r is Ok {
                T::lemma_range(r->Ok_0.0, r->Ok_0.0);
                T::lemma_from_nat(r->Ok_0.0.spec_value());
                T::lemma_range(r->Ok_0.0, T::spec_from_nat(r->Ok_0.0.spec_value()));
            }
        }
        r
    }
}

impl<T: TimeInt> TryFromSpecImpl<core::time::Duration> for Nanoseconds<T> {
    open spec fn obeys_try_from_spec() -> bool {
        true
    }

    open spec fn try_from_spec(core_duration: core::time::Duration) -> Result<Self, ConversionError> {
        if core_duration_nanos(core_duration) <= T::spec_max() {
            Ok(Nanoseconds(T::spec_from_nat(core_duration_nanos(core_duration) as nat)))
        } else {
            Err(ConversionError::ConversionFailure)
        }
    }
}

/// Create time-based extensions from primitive numeric types.
pub trait Extensions: TimeInt {
    /// nanoseconds
    fn nanoseconds(self) -> (r: Nanoseconds<Self>)
        ensures
            r.0 == self,
    {
        Nanoseconds::new(self)
    }

    /// microseconds
    fn microseconds(self) -> (r: Microseconds<Self>)
        ensures
            r.0 == self,
    {
        Microseconds::new(self)
    }

    /// milliseconds
    fn milliseconds(self) -> (r: Milliseconds<Self>)
        ensures
            r.0 == self,
    {
        Milliseconds::new(self)
    }

    /// seconds
    fn seconds(self) -> (r: Seconds<Self>)
        ensures
            r.0 == self,
    {
        Seconds::new(self)
    }

    /// minutes
    fn minutes(self) -> (r: Minutes<Self>)
        ensures
            r.0 == self,
    {
        Minutes::new(self)
    }

    /// hours
    fn hours(self) -> (r: Hours<Self>)
        ensures
            r.0 == self,
    {
        Hours::new(self)
    }
}

impl Extensions for u32 {

}

impl Extensions for u64 {

}

} // verus!
