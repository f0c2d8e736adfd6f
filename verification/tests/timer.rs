use core::cell::Cell;
use embedded_time::clock::Error;
use embedded_time::duration::units::{Extensions, Milliseconds, Seconds};
use embedded_time::fixed_point::FixedPoint;
use embedded_time::timer::NewTimer;
use embedded_time::{ConversionError, Fraction, Instant, TimeError};

#[derive(Debug)]
struct Clock {
    ticks: Cell<u64>,
}

impl Clock {
    fn new() -> Self {
        Clock { ticks: Cell::new(0) }
    }

    fn add_to_ticks<Dur: FixedPoint>(&self, duration: Dur) {
        let ticks = self.ticks.get()
            + duration
                .into_ticks::<u64>(<Clock as embedded_time::Clock>::scaling_factor())
                .unwrap();
        self.ticks.set(ticks);
    }
}

impl embedded_time::Clock for Clock {
    type Rep = u64;
    type ImplError = ();

    fn scaling_factor() -> Fraction {
        Fraction::new(1, 1_000)
    }

    fn now(&self) -> Result<Instant<Self>, Error<Self::ImplError>> {
        Ok(Instant::new(self.ticks.get()))
    }
}

#[derive(Debug)]
struct BrokenClock;

impl embedded_time::Clock for BrokenClock {
    type Rep = u32;
    type ImplError = u8;

    fn scaling_factor() -> Fraction {
        Fraction::new(1, 1_000)
    }

    fn now(&self) -> Result<Instant<Self>, Error<Self::ImplError>> {
        Err(Error::Other(7))
    }
}

#[test]
fn timer_periodic_expiration() {
    let clock = Clock::new();

    let mut timer = clock
        .new_timer()
        .into_periodic()
        .set_duration(1_u32.seconds())
        .start()
        .unwrap();

    clock.add_to_ticks(2_u32.seconds());

    assert!(timer.period_complete().unwrap());
    assert!(timer.period_complete().unwrap());
}

#[test]
fn timer_read_timer() {
    let clock = Clock::new();

    let timer = clock.new_timer().set_duration(2_u32.seconds()).start().unwrap();

    clock.add_to_ticks(1_u32.milliseconds());

    assert_eq!(timer.elapsed().unwrap(), 0_u32.seconds());
    assert_eq!(timer.remaining().unwrap(), 1_u32.seconds());

    clock.add_to_ticks(1_u32.seconds());

    assert_eq!(timer.elapsed().unwrap(), 1_u32.seconds());
    assert_eq!(timer.remaining().unwrap(), 0_u32.seconds());

    clock.add_to_ticks(1_u32.seconds());

    assert_eq!(timer.elapsed().unwrap(), 2_u32.seconds());
    assert_eq!(timer.remaining().unwrap(), 0_u32.seconds());

    clock.add_to_ticks(1_u32.seconds());

    assert_eq!(timer.elapsed().unwrap(), 3_u32.seconds());
    assert_eq!(timer.remaining().unwrap(), 0_u32.seconds());
}

#[test]
fn timer_oneshot_expiry_and_rearm() {
    let clock = Clock::new();
    let timer = clock.new_timer().set_duration(Milliseconds(500_u32)).start().unwrap();
    assert!(!timer.is_expired().unwrap());
    clock.add_to_ticks(Milliseconds(499_u32));
    assert!(!timer.is_expired().unwrap());
    clock.add_to_ticks(Milliseconds(1_u32));
    assert!(timer.is_expired().unwrap());
    let armed = timer.rearm();
    let restarted = armed.start().unwrap();
    assert!(!restarted.is_expired().unwrap());
    clock.add_to_ticks(Milliseconds(500_u32));
    assert!(restarted.is_expired().unwrap());
}

#[test]
fn timer_at_given_instants() {
    let clock = Clock::new();
    let timer = clock
        .new_timer()
        .set_duration(Seconds(3_u32))
        .start_at(Instant::new(1_000))
        .unwrap();
    assert!(!timer.is_expired_at(&Instant::new(3_999)));
    assert!(timer.is_expired_at(&Instant::new(4_000)));
    assert_eq!(timer.elapsed_at(&Instant::new(2_500)), Ok(Seconds(1_u32)));
    assert_eq!(timer.remaining_at(&Instant::new(2_500)), Seconds(1_u32));
    assert_eq!(timer.remaining_at(&Instant::new(9_000)), Seconds(0_u32));
    assert_eq!(
        timer.elapsed_at(&Instant::new(500)),
        Err(ConversionError::NegDuration)
    );
}

#[test]
fn timer_periodic_next_period_and_completion() {
    let clock = Clock::new();
    let timer = clock
        .new_timer()
        .into_periodic()
        .set_duration(Milliseconds(10_u32))
        .start_at(Instant::new(0))
        .unwrap();
    let mut next = timer.next_period().unwrap();
    assert!(!next.is_expired_at(&Instant::new(19)));
    assert!(next.is_expired_at(&Instant::new(20)));
    assert_eq!(next.period_complete_at(&Instant::new(5)), Ok(false));
    assert_eq!(next.period_complete_at(&Instant::new(25)), Ok(true));
    assert!(!next.is_expired_at(&Instant::new(29)));
    assert!(next.is_expired_at(&Instant::new(30)));
}

#[test]
fn timer_start_duration_too_long() {
    let clock = Clock::new();
    let result = clock.new_timer().set_duration(Seconds(u64::MAX)).start();
    assert!(matches!(result, Err(TimeError::Overflow)));
}

#[test]
fn timer_clock_failure_is_reported() {
    let clock = BrokenClock;
    let result = clock.new_timer().set_duration(Seconds(1_u32)).start();
    assert!(matches!(result, Err(TimeError::Clock(Error::Other(7)))));
    let running = clock
        .new_timer()
        .set_duration(Seconds(1_u32))
        .start_at(Instant::new(0))
        .unwrap();
    assert!(matches!(running.is_expired(), Err(TimeError::Clock(Error::Other(7)))));
    assert!(matches!(running.elapsed(), Err(TimeError::Clock(_))));
    assert!(matches!(running.remaining(), Err(TimeError::Clock(_))));
}
