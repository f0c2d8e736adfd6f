use embedded_time::duration::units::{Milliseconds, Seconds};
use embedded_time::fixed_point::{self, FixedPoint, FixedPointOps};
use embedded_time::rate::units::Hertz;
use embedded_time::{ConversionError, Fraction};

#[test]
fn from_ticks() {
    assert_eq!(
        fixed_point::from_ticks(200_u32, Fraction::new(1, 1_000)),
        Ok(Milliseconds(200_u64))
    );
    assert_eq!(
        fixed_point::from_ticks(200_u32, Fraction::new(1_000, 1)),
        Ok(Seconds(200_000_u64))
    );
}

#[test]
fn fixed_point_into_ticks() {
    assert_eq!(Hertz(2_u32).into_ticks(Fraction::new(1, 1_000)), Ok(2_000_u32));
    assert_eq!(
        Seconds(2_u32).into_ticks::<u32>(Fraction::new(1, 1_000)),
        Ok(2_000_u32)
    );
    assert_eq!(
        Seconds(u32::MAX).into_ticks::<u32>(Fraction::new(1, 1_000)),
        Err(ConversionError::Overflow)
    );
}

#[test]
fn fixed_point_from_ticks_narrowing_fails() {
    assert_eq!(
        fixed_point::from_ticks::<u64, Milliseconds<u32>>(5_000_000_000_u64, Fraction::new(1, 1_000)),
        Err(ConversionError::ConversionFailure)
    );
}

#[test]
fn fixed_point_min_max_values() {
    assert_eq!(Seconds::<u32>::min_value(), 0_u32);
    assert_eq!(Seconds::<u32>::max_value(), u32::MAX);
    assert_eq!(Milliseconds::<u64>::max_value(), u64::MAX);
}

#[test]
fn fixed_point_from_ticks_safe_truncates() {
    assert_eq!(
        fixed_point::from_ticks_safe::<u32, Seconds<u32>>(2_500_u32, Fraction::new(1, 1_000)),
        Seconds(2_u32)
    );
}

#[test]
fn fixed_point_rescales_exactly() {
    assert_eq!(
        fixed_point::from_ticks::<u32, embedded_time::duration::units::Nanoseconds<u64>>(
            1_u32,
            Fraction::new(u32::MAX - 1, u32::MAX)
        ),
        Ok(embedded_time::duration::units::Nanoseconds(999_999_999_u64))
    );
    // about 1.19e9 hours fits, although the intermediate product does not fit in u32
    assert_eq!(
        fixed_point::from_ticks::<u32, embedded_time::duration::units::Hours<u32>>(
            u32::MAX,
            Fraction::new(1_000, 1)
        ),
        Ok(embedded_time::duration::units::Hours(1_193_046_470_u32))
    );
}

#[test]
fn fixed_point_zero_fraction_is_unspecified() {
    assert_eq!(
        Seconds(1_u32).into_ticks::<u32>(Fraction::new(0, 1)),
        Err(ConversionError::Unspecified)
    );
}

#[test]
fn fixed_point_round_trip_through_finer_ticks() {
    let ticks = Seconds(123_u32).into_ticks::<u32>(Fraction::new(1, 2)).unwrap();
    assert_eq!(ticks, 246_u32);
    assert_eq!(
        fixed_point::from_ticks::<u32, Seconds<u32>>(ticks, Fraction::new(1, 2)),
        Ok(Seconds(123_u32))
    );
}

#[test]
fn fixed_point_to_string_is_decimal_integer() {
    assert_eq!(Seconds(123_u32).to_string(), "123");
    assert_eq!(Hertz(123_u32).to_string(), "123");
    assert_eq!(Milliseconds(0_u64).to_string(), "0");
    assert_eq!(Milliseconds(u64::MAX).to_string(), "18446744073709551615");
}
