//! Frequencies as the reciprocal of periods, and integer scaling of frequencies
use crate::period::Period;
use crate::rate::units::Hertz;
use crate::time_int::TimeInt;
use crate::ConversionError;
use vstd::prelude::*;
use vstd::std_specs::convert::TryFromSpecImpl;
use vstd::std_specs::ops::DivSpecImpl;
use vstd::std_specs::ops::MulSpecImpl;

verus! {

impl<T: TimeInt> Hertz<T> {
    /// Convert the frequency into a fractional [`Period`] in seconds: `1 / frequency`
    ///
    /// # Errors
    ///
    /// [`ConversionError::DivByZero`] : the frequency is `0`
    pub fn into_period(self) -> (r: Result<Period<T>, ConversionError>)
        ensures
            self.0.spec_value() == 0 <==> r == Err::<Period<T>, ConversionError>(
                ConversionError::DivByZero,
            ),
            self.0.spec_value() != 0 ==> (r matches Ok(p) && p.spec_numer() == 1 && p.spec_denom()
                == self.0.spec_value()),
    {
        if self.0.to_u64() == 0 {
            Err(ConversionError::DivByZero)
        } else {
            Ok(Period::from_integer(self.0).recip())
        }
    }

    /// Create a new frequency from a fractional [`Period`] in seconds: `1 / period`, truncated
    /// toward `0`
    ///
    /// # Errors
    ///
    /// [`ConversionError::DivByZero`] : the period is `0`
    pub fn from_period(period: Period<T>) -> (r: Result<Self, ConversionError>)
        ensures
            period.spec_numer() == 0 <==> r == Err::<Self, ConversionError>(
                ConversionError::DivByZero,
            ),
            period.spec_numer() != 0 ==> (r matches Ok(f) && f.0.spec_value()
                == period.spec_denom() / period.spec_numer()),
    {
        if period.numerator().to_u64() == 0 {
            Err(ConversionError::DivByZero)
        } else {
            Ok(Hertz(period.recip().to_integer()))
        }
    }
}

/// A nonzero frequency turned into a period and back is unchanged: the period `p` that
/// [`Hertz::into_period`] gives for `f` makes [`Hertz::from_period`] give `f` again.
pub proof fn lemma_period_round_trip<T: TimeInt>(f: Hertz<T>, p: Period<T>)
    requires
        f.0.spec_value() != 0,
        p.spec_numer() == 1,
        p.spec_denom() == f.0.spec_value(),
    ensures
        p.spec_numer() != 0,
        p.spec_denom() / p.spec_numer() == f.0.spec_value(),
{
}

impl<T: TimeInt> core::ops::Mul<T> for Hertz<T> {
    type Output = Self;

    /// Panicky frequency × integer = frequency
    fn mul(self, rhs: T) -> (r: Self) {
        match self.0.checked_mul(&rhs) {
            Some(v) => {
                proof {
                    T::lemma_from_nat(v.spec_value());
                    T::lemma_range(v, T::spec_from_nat(v.spec_value()));
                }
                Hertz(v)
            },
            None => {
                proof {
                    assert(false);
                }
                self
            },
        }
    }
}

impl<T: TimeInt> MulSpecImpl<T> for Hertz<T> {
    open spec fn obeys_mul_spec() -> bool {
        true
    }

    open spec fn mul_req(self, rhs: T) -> bool {
        self.0.spec_value() * rhs.spec_value() <= T::spec_max()
    }

    open spec fn mul_spec(self, rhs: T) -> Self {
        Hertz(T::spec_from_nat(self.0.spec_value() * rhs.spec_value()))
    }
}

impl<T: TimeInt> core::ops::Div<T> for Hertz<T> {
    type Output = Self;

    /// Panicky frequency / integer = frequency, truncated toward `0`
    fn div(self, rhs: T) -> (r: Self) {
        match self.0.checked_div(&rhs) {
            Some(v) => {
                proof {
                    T::lemma_range(v, v);
                    T::lemma_from_nat(v.spec_value());
                    T::lemma_range(v, T::spec_from_nat(v.spec_value()));
                }
                Hertz(v)
            },
            None => {
                proof {
                    assert(false);
                }
                self
            },
        }
    }
}

impl<T: TimeInt> DivSpecImpl<T> for Hertz<T> {
    open spec fn obeys_div_spec() -> bool {
        true
    }

    open spec fn div_req(self, rhs: T) -> bool {
        rhs.spec_value() != 0
    }

    open spec fn div_spec(self, rhs: T) -> Self {
        Hertz(T::spec_from_nat(self.0.spec_value() / rhs.spec_value()))
    }
}

impl<T: TimeInt> TryFrom<Hertz<T>> for Period<T> {
    type Error = ConversionError;

    /// The period of a frequency: `1 / frequency` seconds
    fn try_from(freq: Hertz<T>) -> (r: Result<Self, ConversionError>) {
        let r = freq.into_period();
        proof {
            if r is Ok {
                r->Ok_0.lemma_determined(1, freq.0.spec_value());
            }
        }
        r
    }
}

impl<T: TimeInt> TryFromSpecImpl<Hertz<T>> for Period<T> {
    open spec fn obeys_try_from_spec() -> bool {
        true
    }

    open spec fn try_from_spec(freq: Hertz<T>) -> Result<Self, ConversionError> {
        if freq.0.spec_value() == 0 {
            Err(ConversionError::DivByZero)
        } else {
            Ok(Period::spec_new(1, freq.0.spec_value()))
        }
    }
}

} // verus!
