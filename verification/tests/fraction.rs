use embedded_time::time_int::TimeInt;
use embedded_time::{ConversionError, Fraction};

#[test]
fn fraction_mul_integer_by_fraction() {
    assert_eq!(u32::MAX * Fraction::new(3, 5), u32::MAX / 5 * 3);
}

#[test]
fn mul_integer_by_fraction() {
    assert_eq!(u32::MAX.mul_fraction(Fraction::new(3, 5)), u32::MAX / 5 * 3);
}

#[test]
fn fraction_mul_fraction() {
    let product = Fraction::new(1_000, 1) * Fraction::new(5, 5);
    assert_eq!(*product.numerator(), 1_000_u32);
    assert_eq!(*product.denominator(), 1_u32);
}

#[test]
fn fraction_div_fraction() {
    let product = Fraction::new(1_000, 1) / Fraction::new(10, 1_000);
    assert_eq!(*product.numerator(), 100_000_u32);
    assert_eq!(*product.denominator(), 1_u32);
}

#[test]
fn fraction_new_reduce() {
    let f = Fraction::new_reduce(6, 3).unwrap();
    assert_eq!((*f.numerator(), *f.denominator()), (2, 1));
    assert_eq!(Fraction::new_reduce(6, 0), Err(ConversionError::DivByZero));
    let g = Fraction::new_reduce(0, 7).unwrap();
    assert_eq!((*g.numerator(), *g.denominator()), (0, 1));
}

#[test]
fn fraction_to_and_from_integer() {
    assert_eq!(Fraction::new(3, 1).to_integer(), 3);
    assert_eq!(Fraction::new(5, 2).to_integer(), 2);
    let f = Fraction::from_integer(3);
    assert_eq!((*f.numerator(), *f.denominator()), (3, 1));
}

#[test]
fn fraction_integer_products_and_quotients() {
    assert_eq!(u64::MAX * Fraction::new(3, 5), u64::MAX / 5 * 3);
    assert_eq!(12_u32 / Fraction::new(4, 3), 9);
    assert_eq!(u32::MAX / Fraction::new(5, 3), u32::MAX / 5 * 3);
    assert_eq!(12_u64 / Fraction::new(4, 3), 9_u64);
    assert_eq!(u64::MAX / Fraction::new(5, 3), u64::MAX / 5 * 3);
    assert_eq!(u128::MAX * Fraction::new(1, 2), u128::MAX / 2);
    assert_eq!(10_u128 / Fraction::new(2, 1), 5_u128);
}

#[test]
fn fraction_recip() {
    let f = Fraction::new(3, 7).recip();
    assert_eq!((*f.numerator(), *f.denominator()), (7, 3));
    let g = f.recip();
    assert_eq!((*g.numerator(), *g.denominator()), (3, 7));
}

#[test]
fn fraction_checked_mul_and_div() {
    let p = Fraction::new(2, 3).checked_mul(&Fraction::new(9, 4)).unwrap();
    assert_eq!((*p.numerator(), *p.denominator()), (3, 2));
    assert_eq!(
        Fraction::new(u32::MAX, 1).checked_mul(&Fraction::new(2, 1)),
        Err(ConversionError::Overflow)
    );
    let q = Fraction::new(2, 3).checked_div(&Fraction::new(4, 9)).unwrap();
    assert_eq!((*q.numerator(), *q.denominator()), (3, 2));
    assert_eq!(
        Fraction::new(1, 2).checked_div(&Fraction::new(0, 1)),
        Err(ConversionError::Overflow)
    );
}

#[test]
fn fraction_checked_integer_ops() {
    let p = Fraction::new(1, 4).checked_mul_integer(2).unwrap();
    assert_eq!((*p.numerator(), *p.denominator()), (1, 2));
    let q = Fraction::new(1, 2).checked_div_integer(3).unwrap();
    assert_eq!((*q.numerator(), *q.denominator()), (1, 6));
    assert_eq!(
        Fraction::new(1, 2).checked_div_integer(0),
        Err(ConversionError::DivByZero)
    );
    assert_eq!(
        Fraction::new(1, u32::MAX).checked_div_integer(2),
        Err(ConversionError::Overflow)
    );
}

#[test]
fn fraction_compares_by_value() {
    assert_eq!(Fraction::new(2, 4), Fraction::new(1, 2));
    assert!(Fraction::new(1, 3) < Fraction::new(1, 2));
    assert!(Fraction::new(3, 2) > Fraction::new(1, 1));
    assert_ne!(Fraction::new(1, 3), Fraction::new(1, 2));
}

#[test]
fn fraction_default_is_one() {
    let f = Fraction::default();
    assert_eq!((*f.numerator(), *f.denominator()), (1, 1));
}

#[test]
fn fraction_divide_by_zero_fraction() {
    assert_eq!(
        Fraction::new(1, 2).checked_div(&Fraction::new(0, 0)),
        Err(ConversionError::Overflow)
    );
}

#[test]
fn fraction_divide_zero_by_zero_fraction() {
    assert_eq!(
        Fraction::new(0, 3).checked_div(&Fraction::new(0, 5)),
        Err(ConversionError::Overflow)
    );
}
