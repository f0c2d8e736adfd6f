use core::convert::TryFrom;
use embedded_time::rate::units::Hertz;
use embedded_time::{ConversionError, Period};

#[test]
fn period_construction_and_parts() {
    let p = <Period>::new(1, 1_000);
    assert_eq!(*p.numerator(), 1_u32);
    assert_eq!(*p.denominator(), 1_000_u32);
    let r = Period::<u32>::new_reduce(6, 4).unwrap();
    assert_eq!((*r.numerator(), *r.denominator()), (3, 2));
    assert_eq!(Period::<u32>::new_reduce(6, 0), Err(ConversionError::DivByZero));
}

#[test]
fn period_integer_conversions() {
    assert_eq!(Period::<u32>::new(7, 2).to_integer(), 3);
    let p = Period::<u64>::from_integer(5_u64);
    assert_eq!((*p.numerator(), *p.denominator()), (5, 1));
    let q = Period::<u32>::new(2, 5).recip();
    assert_eq!((*q.numerator(), *q.denominator()), (5, 2));
}

#[test]
fn period_checked_arithmetic() {
    let p = Period::<u32>::new(1, 1_000).checked_mul(&Period::new(1_000, 3)).unwrap();
    assert_eq!((*p.numerator(), *p.denominator()), (1, 3));
    let q = Period::<u32>::new(1, 2).checked_div(&Period::new(1, 4)).unwrap();
    assert_eq!((*q.numerator(), *q.denominator()), (2, 1));
    assert_eq!(
        Period::<u32>::new(u32::MAX, 1).checked_mul(&Period::new(2, 1)),
        Err(ConversionError::Overflow)
    );
    let m = Period::<u32>::new(1, 6).checked_mul_integer(4).unwrap();
    assert_eq!((*m.numerator(), *m.denominator()), (2, 3));
    let d = Period::<u32>::new(2, 3).checked_div_integer(4).unwrap();
    assert_eq!((*d.numerator(), *d.denominator()), (1, 6));
    assert_eq!(
        Period::<u32>::new(2, 3).checked_div_integer(0),
        Err(ConversionError::Overflow)
    );
}

#[test]
fn period_operators_and_comparisons() {
    assert_eq!(Period::<u32>::new(1, 2) * Period::new(2, 3), Period::new(1, 3));
    assert_eq!(Period::<u32>::new(1, 2) / Period::new(1, 4), Period::new(2, 1));
    assert_eq!(Period::<u32>::new(2, 4), Period::new(1, 2));
    assert!(Period::<u32>::new(1, 3) < Period::new(1, 2));
    assert!(Period::<u64>::new(u64::MAX, 1) > Period::new(u64::MAX - 1, 1));
}

#[test]
fn period_from_frequency() {
    assert_eq!(Period::try_from(Hertz(1_000_u32)), Ok(<Period>::new(1, 1_000)));
    assert_eq!(Period::try_from(Hertz(0_u32)), Err(ConversionError::DivByZero));
    assert_eq!(Hertz(1_000_u32).into_period(), Ok(<Period>::new(1, 1_000)));
    assert_eq!(Hertz::from_period(<Period>::new(1, 1_000)), Ok(Hertz(1_000_u32)));
    assert_eq!(Hertz::from_period(<Period>::new(0, 1_000)), Err(ConversionError::DivByZero));
    assert_eq!(Hertz::from_period(Hertz(250_u32).into_period().unwrap()), Ok(Hertz(250_u32)));
}

#[test]
fn frequency_integer_scaling() {
    assert_eq!(Hertz(3_u32) * 4_u32, Hertz(12_u32));
    assert_eq!(Hertz(13_u32) / 4_u32, Hertz(3_u32));
}

#[test]
fn period_recip_twice() {
    let p = Period::<u64>::new(3, 8);
    let q = p.recip().recip();
    assert_eq!((*q.numerator(), *q.denominator()), (3, 8));
}

#[test]
fn period_divide_zero_by_zero() {
    assert_eq!(
        Period::<u32>::new(0, 3).checked_div_integer(0),
        Err(ConversionError::Overflow)
    );
}
