use embedded_time::clock::Error;
use embedded_time::duration::units::{Microseconds, Milliseconds, Seconds};
use embedded_time::{ConversionError, Fraction, Instant};

#[derive(Debug)]
struct Clock;

impl embedded_time::Clock for Clock {
    type Rep = u32;
    type ImplError = ();

    fn scaling_factor() -> Fraction {
        Fraction::new(1, 1_000)
    }

    fn now(&self) -> Result<Instant<Self>, Error<Self::ImplError>> {
        unreachable!()
    }
}

#[test]
fn instant_duration_since() {
    let diff: Result<Milliseconds<_>, _> =
        Instant::<Clock>::new(5).duration_since(&Instant::<Clock>::new(3));
    assert_eq!(diff, Ok(Milliseconds(2_u32)));

    let diff: Result<Microseconds<u64>, _> =
        Instant::<Clock>::new(5).duration_since(&Instant::<Clock>::new(3));
    assert_eq!(diff, Ok(Microseconds(2_000_u64)));

    let diff: Result<Microseconds<u64>, _> =
        Instant::<Clock>::new(u32::MIN).duration_since(&Instant::<Clock>::new(u32::MAX));
    assert_eq!(diff, Ok(Microseconds(1_000_u64)));

    let diff: Result<Microseconds<u64>, _> =
        Instant::<Clock>::new(5).duration_since(&Instant::<Clock>::new(6));
    assert_eq!(diff, Err(ConversionError::NegDuration));
}

#[test]
fn instant_duration_until() {
    assert_eq!(
        Instant::<Clock>::new(5).duration_until::<Microseconds<u64>>(&Instant::<Clock>::new(7)),
        Ok(Microseconds(2_000_u64))
    );
    assert_eq!(
        Instant::<Clock>::new(7).duration_until::<Microseconds<u64>>(&Instant::<Clock>::new(5)),
        Err(ConversionError::NegDuration)
    );
}

#[test]
fn instant_duration_since_epoch() {
    assert_eq!(
        Instant::<Clock>::new(u32::MAX).duration_since_epoch::<Milliseconds<u32>>(),
        Ok(Milliseconds(u32::MAX))
    );
    assert_eq!(
        Instant::<Clock>::new(2_000).duration_since_epoch::<Seconds<u32>>(),
        Ok(Seconds(2_u32))
    );
}

#[test]
fn instant_add_duration() {
    assert_eq!(Instant::<Clock>::new(1) + Seconds(3_u32), Instant::<Clock>::new(3_001));
    assert_eq!(Instant::<Clock>::new(1) + Milliseconds(700_u32), Instant::<Clock>::new(701));
    assert_eq!(Instant::<Clock>::new(1) + Milliseconds(700_u64), Instant::<Clock>::new(701));
    // maximum duration allowed
    assert_eq!(
        Instant::<Clock>::new(0) + Milliseconds(i32::MAX as u32),
        Instant::<Clock>::new(u32::MAX / 2)
    );
}

#[test]
fn instant_sub_duration() {
    assert_eq!(Instant::<Clock>::new(5_001) - Seconds(3_u32), Instant::<Clock>::new(2_001));
    assert_eq!(Instant::<Clock>::new(800) - Milliseconds(700_u32), Instant::<Clock>::new(100));
    assert_eq!(Instant::<Clock>::new(5_000) - Milliseconds(700_u64), Instant::<Clock>::new(4_300));
    // maximum duration allowed
    assert_eq!(
        Instant::<Clock>::new(u32::MAX) - Milliseconds(i32::MAX as u32),
        Instant::<Clock>::new(u32::MAX / 2 + 1)
    );
}

#[test]
fn instant_checked_add_sub_overflow() {
    assert_eq!(
        Instant::<Clock>::new(0).checked_add_duration(Milliseconds(u32::MAX / 2 + 1)),
        Err(ConversionError::Overflow)
    );
    assert_eq!(
        Instant::<Clock>::new(u32::MAX).checked_sub_duration(Milliseconds(u32::MAX / 2 + 1)),
        Err(ConversionError::Overflow)
    );
    assert_eq!(
        Instant::<Clock>::new(0).checked_add_duration(Seconds(u32::MAX)),
        Err(ConversionError::Overflow)
    );
}

#[test]
fn instant_wrapping_add_then_sub_restores() {
    let i = Instant::<Clock>::new(u32::MAX - 10);
    let j = i.checked_add_duration(Milliseconds(100_u32)).unwrap();
    assert_eq!(j, Instant::<Clock>::new(89));
    assert_eq!(j.checked_sub_duration(Milliseconds(100_u32)), Ok(i));
    assert!(j > i);
    assert_eq!(j.duration_since::<Milliseconds<u32>>(&i), Ok(Milliseconds(100_u32)));
}

#[test]
fn instant_comparisons() {
    assert!(Instant::<Clock>::new(5) > Instant::<Clock>::new(3));
    assert!(Instant::<Clock>::new(5) == Instant::<Clock>::new(5));
    assert!(Instant::<Clock>::new(u32::MAX) < Instant::<Clock>::new(u32::MIN));
}

#[test]
fn instant_sub_then_add_restores() {
    let i = Instant::<Clock>::new(10);
    let j = i.checked_sub_duration(Milliseconds(100_u32)).unwrap();
    assert_eq!(j, Instant::<Clock>::new(u32::MAX - 89));
    assert_eq!(j.checked_add_duration(Milliseconds(100_u32)), Ok(i));
}

#[test]
fn instant_until_agrees_with_since() {
    let a = Instant::<Clock>::new(1_000);
    let b = Instant::<Clock>::new(4_500);
    assert_eq!(
        a.duration_until::<Milliseconds<u32>>(&b),
        b.duration_since::<Milliseconds<u32>>(&a)
    );
    assert_eq!(a.duration_until::<Seconds<u32>>(&b), Ok(Seconds(3_u32)));
}

#[test]
fn instant_duration_until_itself_is_zero() {
    let a = Instant::<Clock>::new(1_000);
    assert_eq!(a.duration_until::<Milliseconds<u32>>(&a), Ok(Milliseconds(0_u32)));
    assert_eq!(a.duration_since::<Milliseconds<u32>>(&a), Ok(Milliseconds(0_u32)));
}
