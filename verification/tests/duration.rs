use core::cmp::Ordering;
use core::convert::TryFrom;
use core::convert::TryInto;
use embedded_time::duration::units::{
    Extensions, Hours, Microseconds, Milliseconds, Minutes, Nanoseconds, Seconds,
};
use embedded_time::duration::{Duration, Generic};
use embedded_time::fixed_point::FixedPointOps;
use embedded_time::rate::units::{Extensions as RateExtensions, Hertz, Kilohertz, Megahertz};
use embedded_time::{ConversionError, Fraction};

#[test]
fn try_from_generic_ok() {
    assert_eq!(
        Seconds::try_from(Generic::new(246_u32, Fraction::new(1, 2))),
        Ok(Seconds(123_u32))
    );
}

#[test]
fn try_into_generic_ok() {
    assert_eq!(
        Seconds(123_u32).try_into_generic(Fraction::new(1, 2)),
        Ok(Generic::new(246_u32, Fraction::new(1, 2)))
    );
}

#[test]
fn duration_try_into_generic_err() {
    assert_eq!(
        Seconds(u32::MAX).try_into_generic::<u32>(Fraction::new(1, 2)),
        Err(ConversionError::Overflow)
    );
}

#[test]
fn duration_get_generic_integer() {
    let generic = Generic::new(246_u32, Fraction::new(1, 2));
    assert_eq!(generic.integer(), &246_u32);
}

#[test]
fn duration_check_for_overflows() {
    let mut time = 1_u64;
    time *= 60;
    assert_eq!(Minutes(time), Hours(1_u32));
    time *= 60;
    assert_eq!(Seconds(time), Hours(1_u32));
    time *= 1000;
    assert_eq!(Milliseconds(time), Hours(1_u32));
    time *= 1000;
    assert_eq!(Microseconds(time), Hours(1_u32));
    time *= 1000;
    assert_eq!(Nanoseconds(time), Hours(1_u32));
}

#[test]
fn duration_remainder() {
    assert_eq!(Minutes(62_u32) % Hours(1_u32), Minutes(2_u32));
    assert_eq!(Minutes(62_u32) % Milliseconds(1_u32), Minutes(0_u32));
    assert_eq!(Minutes(62_u32) % Minutes(60_u32), Minutes(2_u32));
}

#[test]
fn convert_from_rate() {
    assert_eq!(
        Milliseconds::<u32>::try_from_rate(Hertz(2_u32)),
        Ok(Milliseconds(500_u32))
    );

    assert_eq!(
        Microseconds::<u32>::try_from_rate(Kilohertz(2_u32)),
        Ok(Microseconds(500_u32))
    );
}

#[test]
fn convert_from_core_duration() {
    let core_duration = core::time::Duration::from_nanos(5_025_678_901_234);
    assert_eq!(
        core_duration.try_into(),
        Ok(Nanoseconds::<u64>(5_025_678_901_234))
    );
    assert_eq!(
        core_duration.try_into(),
        Ok(Microseconds::<u64>(5_025_678_901))
    );
    assert_eq!(core_duration.try_into(), Ok(Milliseconds::<u32>(5_025_678)));
    assert_eq!(core_duration.try_into(), Ok(Seconds::<u32>(5_025)));
    assert_eq!(core_duration.try_into(), Ok(Minutes::<u32>(83)));
    assert_eq!(core_duration.try_into(), Ok(Hours::<u32>(1)));
}

#[test]
fn convert_to_core_duration() {
    assert_eq!(
        Nanoseconds(123_u32).try_into(),
        Ok(core::time::Duration::from_nanos(123))
    );
    assert_eq!(
        Microseconds(123_u32).try_into(),
        Ok(core::time::Duration::from_micros(123))
    );
    assert_eq!(
        Milliseconds(123_u32).try_into(),
        Ok(core::time::Duration::from_millis(123))
    );
    assert_eq!(
        Seconds(123_u32).try_into(),
        Ok(core::time::Duration::from_secs(123))
    );
    assert_eq!(
        Minutes(123_u32).try_into(),
        Ok(core::time::Duration::from_secs(123 * 60))
    );
    assert_eq!(
        Hours(123_u32).try_into(),
        Ok(core::time::Duration::from_secs(123 * 3600))
    );
}

#[test]
fn duration_duration_scaling() {
    assert_eq!(1_u32.nanoseconds(), 1_u32.nanoseconds());
    assert_eq!(1_u32.microseconds(), 1_000_u32.nanoseconds());
    assert_eq!(1_u32.milliseconds(), 1_000_000_u32.nanoseconds());
    assert_eq!(1_u32.seconds(), 1_000_000_000_u32.nanoseconds());
    assert_eq!(1_u32.minutes(), 60_000_000_000_u64.nanoseconds());
    assert_eq!(1_u32.hours(), 3_600_000_000_000_u64.nanoseconds());
}

#[test]
fn duration_comparisons_across_units() {
    assert!(Seconds(2_u32) > Milliseconds(1_999_u32));
    assert!(Seconds(2_u32) < Milliseconds(2_001_u32));
    assert!(Seconds(2_u32) == Milliseconds(2_000_u32));
    assert!(Milliseconds(1_999_u32) < Seconds(2_u32));
    assert!(Minutes(1_u32) == Seconds(60_u64));
    assert!(Hours(1_u32) != Minutes(61_u32));
}

#[test]
fn duration_add_and_sub_across_units() {
    assert_eq!(Milliseconds(1_u32) + Seconds(1_u32), Milliseconds(1_001_u32));
    assert_eq!(Seconds(1_u32) + Milliseconds(1_999_u32), Seconds(2_u32));
    assert_eq!(Milliseconds(2_001_u32) - Seconds(1_u32), Milliseconds(1_001_u32));
    assert_eq!(Minutes(1_u32) - Seconds(60_u32), Minutes(0_u32));
}

#[test]
fn duration_try_convert_between_units() {
    assert_eq!(
        Milliseconds::<u32>::try_convert_from(Seconds(3_u32)),
        Ok(Milliseconds(3_000_u32))
    );
    assert_eq!(
        Seconds::<u32>::try_convert_from(Milliseconds(3_999_u32)),
        Ok(Seconds(3_u32))
    );
    assert_eq!(
        Nanoseconds::<u32>::try_convert_from(Seconds(5_u32)),
        Err(ConversionError::Overflow)
    );
    assert_eq!(
        Milliseconds::<u32>::try_convert_from(Hours(u32::MAX)),
        Err(ConversionError::Overflow)
    );
}

#[test]
fn duration_generic_zero_denominator_is_div_by_zero() {
    assert_eq!(
        Seconds::<u32>::try_from(Generic::new(1_u32, Fraction::new(1, 0))),
        Err(ConversionError::DivByZero)
    );
}

#[test]
fn duration_to_core_duration_counts() {
    assert_eq!(Seconds(123_u32).to_core_secs(), Ok(123_u64));
    assert_eq!(Minutes(2_u32).to_core_secs(), Ok(120_u64));
    assert_eq!(Milliseconds(123_u32).to_core_count(), 123_u64);
    assert_eq!(Seconds::<u32>::from_core_secs(5_000_000_000), Err(ConversionError::ConversionFailure));
}

#[test]
fn duration_from_rate_zero_is_an_error() {
    assert!(Milliseconds::<u32>::try_from_rate(Hertz(0_u32)).is_err());
}

#[test]
fn duration_convert_to_own_unit() {
    assert_eq!(Seconds::<u32>::try_convert_from(Seconds(u32::MAX)), Ok(Seconds(u32::MAX)));
    assert_eq!(Minutes::<u32>::try_convert_from(Minutes(1_000_u32)), Ok(Minutes(1_000_u32)));
    assert_eq!(Hours::<u32>::try_convert_from(Hours(u32::MAX)), Ok(Hours(u32::MAX)));
}

#[test]
fn duration_equality_agrees_with_ordering() {
    assert_eq!(
        PartialOrd::partial_cmp(&Seconds(2_u32), &Milliseconds(2_000_u32)),
        Some(Ordering::Equal)
    );
    assert!(Seconds(2_u32) == Milliseconds(2_000_u32));
    assert_eq!(
        PartialOrd::partial_cmp(&Milliseconds(2_000_u32), &Seconds(3_u32)),
        Some(Ordering::Less)
    );
    assert_eq!(
        PartialOrd::partial_cmp(&Seconds(3_u32), &Milliseconds(2_000_u32)),
        Some(Ordering::Greater)
    );
}

#[test]
fn duration_core_duration_round_trip() {
    let core: core::time::Duration = Seconds(123_u32).try_into().unwrap();
    assert_eq!(core.try_into(), Ok(Seconds(123_u32)));
    let core: core::time::Duration = Milliseconds(4_567_u32).try_into().unwrap();
    assert_eq!(core.try_into(), Ok(Milliseconds(4_567_u32)));
    assert_eq!(core.try_into(), Ok(Seconds(4_u32)));
    let core: core::time::Duration = Hours(2_u32).try_into().unwrap();
    assert_eq!(core.try_into(), Ok(Minutes(120_u32)));
}

#[test]
fn duration_try_from_rate_errors() {
    assert_eq!(
        Nanoseconds::<u32>::try_from_rate(Megahertz(u32::MAX)),
        Err(ConversionError::Overflow)
    );
    assert_eq!(
        Seconds::<u32>::try_from_rate((u32::MAX as u64 + 1).Hz()),
        Err(ConversionError::ConversionFailure)
    );
    assert_eq!(Seconds::<u32>::try_from_rate(0_u32.Hz()), Err(ConversionError::DivByZero));
}
