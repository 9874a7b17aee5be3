use std::convert::Infallible;
use std::ops::ControlFlow;

use tryx::checked::{classify, Checked, FloatClass, FloatFailure};

fn checked_float(value: f64) -> Checked<f64> {
    let class = if value.is_nan() {
        FloatClass::Nan
    } else if value == f64::INFINITY {
        FloatClass::PosInfinity
    } else if value == f64::NEG_INFINITY {
        FloatClass::NegInfinity
    } else {
        FloatClass::Finite
    };
    classify(value, class)
}

#[test]
fn classify_accepts_only_finite_class() {
    assert_eq!(checked_float(1.5), Checked::Done(1.5));
    assert_eq!(checked_float(f64::NAN), Checked::Failed(FloatFailure::Nan));
    assert_eq!(checked_float(f64::INFINITY), Checked::Failed(FloatFailure::PosInfinity));
    assert_eq!(checked_float(f64::NEG_INFINITY), Checked::Failed(FloatFailure::NegInfinity));
    assert_eq!(classify(1e-310, FloatClass::Subnormal), Checked::Failed(FloatFailure::Subnormal));
    assert_eq!(checked_float(1e-310), Checked::Done(1e-310));
}

#[test]
fn question_mark_short_circuits_nan() {
    fn run() -> Checked<f64> {
        let _ = match checked_float(0.0 / 0.0).branch() {
            ControlFlow::Continue(value) => value,
            ControlFlow::Break(failure) => return Checked::from_residual(failure),
        };
        checked_float(1.0)
    }
    assert_eq!(run(), Checked::Failed(FloatFailure::Nan));
}

#[test]
fn result_interop_converts_failure() {
    fn run() -> Result<f64, FloatFailure> {
        let value = match checked_float(f64::INFINITY).branch() {
            ControlFlow::Continue(value) => value,
            ControlFlow::Break(failure) => return failure.into_result(),
        };
        Ok(value)
    }
    assert_eq!(run(), Err(FloatFailure::PosInfinity));
}

#[test]
fn checked_result_conversions() {
    assert_eq!(checked_float(4.0).into_result(), Ok(4.0));
    assert_eq!(checked_float(f64::NAN).into_result(), Err(FloatFailure::Nan));
    let absorbed: Result<Infallible, FloatFailure> = Err(FloatFailure::NegInfinity);
    assert_eq!(Checked::<u8>::from_error_residual(absorbed), Checked::Failed(FloatFailure::NegInfinity));
    assert_eq!(Checked::from_output(2u8).branch(), ControlFlow::Continue(2));
}

#[test]
fn checked_map() {
    assert_eq!(Checked::Done(2u8).map(|v| v + 1), Checked::Done(3));
    assert_eq!(Checked::<u8>::Failed(FloatFailure::Nan).map(|v| v + 1), Checked::Failed(FloatFailure::Nan));
}

#[test]
fn float_failure_messages() {
    assert_eq!(FloatFailure::Nan.to_string(), "float operation produced NaN");
    assert_eq!(FloatFailure::PosInfinity.to_string(), "float operation produced positive infinity");
    assert_eq!(FloatFailure::NegInfinity.to_string(), "float operation produced negative infinity");
    assert_eq!(FloatFailure::Subnormal.to_string(), "float operation produced a subnormal value");
}
