use embedded_time::time_int::TimeInt;
use embedded_time::Fraction;

#[test]
fn checked_integer_mul_fraction() {
    assert_eq!(
        8_u32.checked_mul_fraction(&Fraction::new(1, 2)),
        Some(4_u32)
    );

    // the result is not rounded, but truncated (8×(1/3)=2.66)
    assert_eq!(
        8_u32.checked_mul_fraction(&Fraction::new(1, 3)),
        Some(2_u32)
    );
}

#[test]
fn checked_integer_div_fraction() {
    assert_eq!(
        8_u32.checked_div_fraction(&Fraction::new(1, 2)),
        Some(16_u32)
    );

    // the result is not rounded, but truncated (8/3=2.66)
    assert_eq!(
        8_u32.checked_div_fraction(&Fraction::new(3, 1)),
        Some(2_u32)
    );
}

#[test]
fn time_int_checked_fraction_overflow() {
    assert_eq!(u32::MAX.checked_mul_fraction(&Fraction::new(2, 3)), None);
    assert_eq!(u32::MAX.checked_div_fraction(&Fraction::new(1, 2)), None);
    assert_eq!(u64::MAX.checked_mul_fraction(&Fraction::new(1, 1)), Some(u64::MAX));
}

#[test]
fn time_int_checked_same_base() {
    assert_eq!(
        4_u32.checked_same_base(&Fraction::new(3, 1_000), &Fraction::new(1, 7)),
        Some(84_u32)
    );
    assert_eq!(
        u32::MAX.checked_same_base(&Fraction::new(1, 1), &Fraction::new(1, 2)),
        None
    );
}
