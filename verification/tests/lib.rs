use embedded_time::clock;
use embedded_time::{ConversionError, TimeError};

#[test]
fn time_error_from_conversion_error() {
    assert_eq!(TimeError::<()>::from(ConversionError::Unspecified), TimeError::Unspecified);
    assert_eq!(
        TimeError::<()>::from(ConversionError::ConversionFailure),
        TimeError::ConversionFailure
    );
    assert_eq!(TimeError::<()>::from(ConversionError::Overflow), TimeError::Overflow);
    assert_eq!(TimeError::<()>::from(ConversionError::DivByZero), TimeError::DivByZero);
    assert_eq!(TimeError::<()>::from(ConversionError::NegDuration), TimeError::NegDuration);
}

#[test]
fn time_error_from_clock_error() {
    assert_eq!(
        TimeError::from(clock::Error::Other(3_u8)),
        TimeError::Clock(clock::Error::Other(3_u8))
    );
}
