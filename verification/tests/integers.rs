use embedded_time::duration::units::{Hours, Nanoseconds, Seconds};
use embedded_time::integer::Integer;
use embedded_time::numeric_constructor::NumericConstructor;
use embedded_time::numerical_duration::TimeRep;
use embedded_time::rate::units::Hertz;
use embedded_time::ratio::Ratio;
use embedded_time::Period;

#[test]
fn ratio_scales_signed_integers() {
    assert_eq!(10_i64 * Ratio::new(3_i64, 4_i64), 7);
    assert_eq!(-10_i64 * Ratio::new(3_i64, 4_i64), -7);
    assert_eq!(10_i64 * Ratio::new(3_i64, -4_i64), -7);
    assert!(Ratio::new(1_i64, 2_i64) == Ratio::new(1_i64, 2_i64));
    assert!(Ratio::new(1_i64, 2_i64) != Ratio::new(2_i64, 4_i64));
}

#[test]
fn integer_derefs_to_its_value() {
    let i = Integer(-5_i32);
    assert_eq!(*i, -5_i32);
    assert_eq!(*Integer::<i64>::default(), 0_i64);
}

#[test]
fn numeric_constructors() {
    assert_eq!(NumericConstructor::seconds(5_u32), Seconds(5_u32));
    assert_eq!(NumericConstructor::hours(2_u64), Hours(2_u64));
    assert_eq!(NumericConstructor::nanoseconds(9_u32), Nanoseconds(9_u32));
    assert_eq!(NumericConstructor::hertz(60_u32), Hertz(60_u32));
}

#[test]
fn time_rep_scaling_by_period() {
    let p = <Period>::new(3, 4);
    assert_eq!(TimeRep::checked_mul(&10_i32, &p), Some(7_i32));
    assert_eq!(TimeRep::checked_mul(&-10_i64, &p), Some(-7_i64));
    assert_eq!(TimeRep::checked_div(&9_i32, &p), Some(12_i32));
    assert_eq!(TimeRep::checked_mul(&i32::MAX, &p), None);
    assert_eq!(TimeRep::checked_div(&1_i32, &<Period>::new(0, 4)), None);
    assert_eq!(TimeRep::checked_mul(&1_i32, &<Period>::new(u32::MAX, 1)), None);
}
