use core::convert::TryFrom;
use embedded_time::duration::units::{Hours, Microseconds, Milliseconds, Seconds};
use embedded_time::rate::units::{
    BitsPerSecond, Extensions, Hertz, Kilohertz, Megahertz,
};
use embedded_time::rate::{Generic, Rate};
use embedded_time::{ConversionError, Fraction};

#[test]
fn try_from_generic() {
    assert_eq!(
        Hertz::try_from(Generic::new(246_u32, Fraction::new(1, 2))),
        Ok(Hertz(123_u32))
    );
}

#[test]
fn rate_to_generic() {
    assert_eq!(
        Hertz(123_u32).to_generic(Fraction::new(1, 2)),
        Ok(Generic::new(246_u32, Fraction::new(1, 2)))
    );
}

#[test]
fn rate_try_into_generic_err() {
    assert_eq!(
        Hertz(u32::MAX).to_generic::<u32>(Fraction::new(1, 2)),
        Err(ConversionError::Overflow)
    );
}

#[test]
fn rate_get_generic_integer() {
    let generic = Generic::new(246_u32, Fraction::new(1, 2));
    assert_eq!(generic.integer(), &246_u32);
}

#[test]
fn rate_check_for_overflows() {
    let mut time = 1_u32;
    time *= 60;
    assert_eq!(Hertz(time), Hertz(60_u32));
}

#[test]
fn rate_remainder() {
    assert_eq!(Hertz(456_u32) % Hertz(100_u32), Hertz(56_u32));
    assert_eq!(Hertz(2_003_u32) % Kilohertz(1_u32), Hertz(3_u32));
    assert_eq!(Kilohertz(40_u32) % Hertz(100_u32), Kilohertz(0_u32));
}

#[test]
fn rate_convert_to_duration() {
    assert_eq!(Hertz(500_u32).to_duration(), Ok(Milliseconds(2_u32)));

    assert_eq!(Kilohertz(500_u32).to_duration(), Ok(Microseconds(2_u32)));
}

#[test]
fn rate_frequency_scaling() {
    assert_eq!(1_u32.Hz(), 1_u32.Hz());
    assert_eq!(1_u32.kHz(), 1_000_u32.Hz());
    assert_eq!(1_u32.MHz(), 1_000_000_u32.Hz());
}

#[test]
fn rate_bytes_per_second_scaling() {
    assert_eq!(1_u32.Bps(), 1_u32.Bps());
    assert_eq!(1_u32.kBps(), 1_000_u32.Bps());
    assert_eq!(1_u32.KiBps(), 1_024_u32.Bps());
    assert_eq!(1_u32.MBps(), 1_000_000_u32.Bps());
    assert_eq!(1_u32.MiBps(), 1_048_576_u32.Bps());
}

#[test]
fn rate_bits_per_second_scaling() {
    assert_eq!(1_u32.bps(), 1_u32.bps());
    assert_eq!(1_u32.kbps(), 1_000_u32.bps());
    assert_eq!(1_u32.Kibps(), 1_024_u32.bps());
    assert_eq!(1_u32.Mbps(), 1_000_000_u32.bps());
    assert_eq!(1_u32.Mibps(), 1_048_576_u32.bps());
}

#[test]
fn rate_baud_scaling() {
    assert_eq!(1_u32.Bd(), 1_u32.Bd());
    assert_eq!(1_u32.kBd(), 1_000_u32.Bd());
    assert_eq!(1_u32.KiBd(), 1_024_u32.Bd());
    assert_eq!(1_u32.MBd(), 1_000_000_u32.Bd());
    assert_eq!(1_u32.MiBd(), 1_048_576_u32.Bd());
}

#[test]
fn rate_comparisons_across_units() {
    assert!(Kilohertz(2_u32) > Hertz(1_999_u32));
    assert!(Kilohertz(2_u32) == Hertz(2_000_u64));
    assert!(Megahertz(1_u32) == Kilohertz(1_000_u32));
    assert!(Hertz(999_u32) < Kilohertz(1_u32));
}

#[test]
fn rate_add_sub() {
    assert_eq!(Hertz(1_u32) + Kilohertz(1_u32), Hertz(1_001_u32));
    assert_eq!(Hertz(2_001_u32) - Kilohertz(1_u32), Hertz(1_001_u32));
}

#[test]
fn rate_units_compare_by_scaling_factor_only() {
    // bits and bytes per second share the scaling factor 1/1: they compare as plain counts
    assert_eq!(BitsPerSecond(1_u32), 1_u32.Bps());
    assert_ne!(BitsPerSecond(8_u32), 1_u32.Bps());
}

#[test]
fn rate_generic_from_unit() {
    let g: Generic<u32> = Generic::from(Kilohertz(3_u32));
    assert_eq!(g, Generic::new(3_u32, Fraction::new(1_000, 1)));
}

#[test]
fn rate_to_duration_of_zero_fails() {
    assert!(Hertz(0_u32).to_duration::<Milliseconds<u32>>().is_err());
}

#[test]
fn rate_comparisons_with_unconvertible_values() {
    assert!(Kilohertz(5_u32) < Kilohertz(u64::MAX));
    assert!(Kilohertz(u64::MAX) > Kilohertz(5_u32));
    assert!(Hertz(5_u32) < Kilohertz(u64::MAX));
    assert!(Kilohertz(u64::MAX) > Hertz(5_u32));
    assert_ne!(Kilohertz(5_u32), Kilohertz(u64::MAX));
    assert_ne!(2_001_u32.Hz(), 2_u64.kHz());
}

#[test]
fn rate_to_duration_truncates() {
    assert_eq!(Hertz(3_u32).to_duration(), Ok(Milliseconds(333_u32)));
    assert_eq!(Kilohertz(3_u32).to_duration(), Ok(Microseconds(333_u32)));
}

#[test]
fn rate_to_duration_errors() {
    assert_eq!(
        Megahertz(u32::MAX).to_duration::<Hours<u32>>(),
        Err(ConversionError::Overflow)
    );
    assert_eq!(
        Hertz(0_u32).to_duration::<Seconds<u32>>(),
        Err(ConversionError::DivByZero)
    );
}
