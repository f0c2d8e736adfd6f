# embedded_time

Durations, rates, instants, clocks and timers for embedded systems, written in Verus and
verified: the public functions state their results in their contracts (the timer methods
that read a clock state what holds for whatever instant the clock gives, and exact contracts
stand on the variants that take the instant), arithmetic is proved free of overflow, and the
library's laws (value-preserving fraction arithmetic, exactly truncating conversions,
instants that give back what was added to them, ...) are proved as lemmas.

Durations and rates are fixed-point values: an unsigned _integer_ (`u32` or `u64`) and a
constant `Fraction` _scaling factor_, in seconds for durations and in hertz for rates.
Conversions between units give the exact rescaled value, truncated, and fail, rather than
wrap, only when that value does not fit the destination type.

## Layout

- `src/arith.rs`: greatest common divisors, reduced ratios, overflow-checked products and
  quotients of ratios, wrapping sums and differences.
- `src/fraction.rs`, `src/period.rs`, `src/ratio.rs`: fractional values.
- `src/time_int.rs`: the unsigned integer types that hold time values.
- `src/fixed_point.rs`: conversions between scaling factors and integer widths.
- `src/duration.rs`, `src/duration/units.rs`: durations (`Hours` ... `Nanoseconds`).
- `src/rate.rs`, `src/rate/units.rs`, `src/frequency.rs`: rates (`Megahertz` ... `Baud`).
- `src/clock.rs`, `src/instant.rs`: clocks and the instants they read.
- `src/timer.rs`, `src/timer/param.rs`: typestate timers.
- `src/integer.rs`, `src/numeric_constructor.rs`, `src/numerical_duration.rs`,
  `src/numerical_traits.rs`: integer helpers.
- `app/lib.rs`: the blocking waits on timers, which poll a clock until a timer expires.
- `tests/`: tests of the library on concrete values.
