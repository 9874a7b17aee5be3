use std::convert::Infallible;
use std::ops::ControlFlow;

use tryx::cancel::{
    Cancel, CancelError, CancelWith, CancelWithError, Cancellation, CancellationReason,
};

#[derive(Debug, PartialEq, Eq)]
struct AppError;

impl From<CancelError> for AppError {
    fn from(_: CancelError) -> Self {
        Self
    }
}

fn maybe_cancel(cancel: bool, value: u8) -> Cancel<u8> {
    if cancel {
        Cancel::Cancelled
    } else {
        Cancel::ok(value)
    }
}

fn cancel_returning_success() -> Cancel<u8> {
    let a = match maybe_cancel(false, 2).branch() {
        ControlFlow::Continue(value) => value,
        ControlFlow::Break(residual) => return Cancel::from_residual(residual),
    };
    let b = match maybe_cancel(false, 3).branch() {
        ControlFlow::Continue(value) => value,
        ControlFlow::Break(residual) => return Cancel::from_residual(residual),
    };
    Cancel::Done(a + b)
}

fn cancel_returning_short_circuit() -> Cancel<u8> {
    let _ = match maybe_cancel(true, 2).branch() {
        ControlFlow::Continue(value) => value,
        ControlFlow::Break(residual) => return Cancel::from_residual(residual),
    };
    Cancel::Done(9)
}

fn result_returning_short_circuit() -> Result<u8, AppError> {
    let _ = match maybe_cancel(true, 2).branch() {
        ControlFlow::Continue(value) => value,
        ControlFlow::Break(residual) => return residual.into_result(),
    };
    Ok(9)
}

#[test]
fn question_mark_continues_inside_cancel() {
    assert_eq!(cancel_returning_success(), Cancel::Done(5));
}

#[test]
fn question_mark_short_circuits_inside_cancel() {
    assert_eq!(cancel_returning_short_circuit(), Cancel::Cancelled);
}

#[test]
fn question_mark_converts_cancel_into_result_error() {
    assert_eq!(result_returning_short_circuit(), Err(AppError));
}

#[derive(Debug, PartialEq, Eq)]
struct ReasonError(&'static str);

impl From<CancelWithError<&'static str>> for ReasonError {
    fn from(error: CancelWithError<&'static str>) -> Self {
        Self(error.into_reason())
    }
}

fn maybe_cancel_with(cancel: bool) -> CancelWith<u8, &'static str> {
    if cancel {
        CancelWith::cancelled("stopped")
    } else {
        CancelWith::ok(4)
    }
}

fn cancel_with_returning_success() -> CancelWith<u8, &'static str> {
    let value = match maybe_cancel_with(false).branch() {
        ControlFlow::Continue(value) => value,
        ControlFlow::Break(residual) => return CancelWith::from_residual(residual),
    };
    CancelWith::ok(value + 1)
}

fn cancel_with_returning_short_circuit() -> CancelWith<u8, &'static str> {
    let _ = match maybe_cancel_with(true).branch() {
        ControlFlow::Continue(value) => value,
        ControlFlow::Break(residual) => return CancelWith::from_residual(residual),
    };
    CancelWith::ok(9)
}

fn result_returning_reason() -> Result<u8, ReasonError> {
    let _ = match maybe_cancel_with(true).branch() {
        ControlFlow::Continue(value) => value,
        ControlFlow::Break(residual) => return residual.into_result(),
    };
    Ok(9)
}

#[test]
fn question_mark_continues_inside_cancel_with() {
    assert_eq!(cancel_with_returning_success(), CancelWith::Done(5));
}

#[test]
fn question_mark_short_circuits_inside_cancel_with() {
    assert_eq!(
        cancel_with_returning_short_circuit(),
        CancelWith::Cancelled("stopped"),
    );
}

#[test]
fn question_mark_converts_cancel_with_into_result_error() {
    assert_eq!(result_returning_reason(), Err(ReasonError("stopped")));
}

#[test]
fn cancel_constructors_map_and_and_then() {
    assert_eq!(Cancel::ok(3), Cancel::Done(3));
    assert_eq!(Cancel::<u8>::cancelled(), Cancel::Cancelled);
    assert_eq!(Cancel::ok(2).map(|value| value + 1), Cancel::Done(3));
    assert_eq!(Cancel::<u8>::cancelled().map(|value| value + 1), Cancel::Cancelled);
    assert_eq!(Cancel::ok(2).and_then(|value| Cancel::ok(value + 1)), Cancel::Done(3));
    assert_eq!(
        Cancel::<u8>::cancelled().and_then(|value| Cancel::ok(value + 1)),
        Cancel::Cancelled,
    );
    assert_eq!(Cancel::ok(2).and_then(|_| Cancel::<u8>::cancelled()), Cancel::Cancelled);
}

#[test]
fn cancel_try_protocol_round_trips() {
    assert_eq!(Cancel::from_output(7u8).branch(), ControlFlow::Continue(7));
    assert_eq!(Cancel::<u8>::Cancelled.branch(), ControlFlow::Break(Cancellation));
    assert_eq!(Cancel::<u8>::from_residual(Cancellation), Cancel::Cancelled);
    let absorbed: Result<Infallible, CancelError> = Err(CancelError);
    assert_eq!(Cancel::<u8>::from_error_residual(absorbed), Cancel::Cancelled);
}

#[test]
fn cancel_error_message() {
    assert_eq!(CancelError.to_string(), "operation cancelled");
    let direct: Result<(), CancelError> = Cancellation.into_result();
    assert_eq!(direct, Err(CancelError));
}

#[test]
fn cancel_with_keeps_reason() {
    assert_eq!(CancelWith::<_, &str>::ok(3), CancelWith::Done(3));
    assert_eq!(CancelWith::<u8, _>::cancelled("stopped"), CancelWith::Cancelled("stopped"));
    assert_eq!(CancelWith::<_, &str>::ok(2).map(|value| value + 1), CancelWith::Done(3));
    assert_eq!(
        CancelWith::<u8, &str>::cancelled("late").map(|value| value + 1),
        CancelWith::Cancelled("late"),
    );
    assert_eq!(
        CancelWith::<_, &str>::ok(2).and_then(|value| CancelWith::ok(value + 1)),
        CancelWith::Done(3),
    );
    assert_eq!(
        CancelWith::<u8, &str>::cancelled("late").and_then(|value| CancelWith::ok(value + 1)),
        CancelWith::Cancelled("late"),
    );
    assert_eq!(
        CancelWith::<u8, &str>::Cancelled("x").branch(),
        ControlFlow::Break(CancellationReason("x")),
    );
    assert_eq!(
        CancelWith::<u8, &str>::from_residual(CancellationReason("x")),
        CancelWith::Cancelled("x"),
    );
    let absorbed: Result<Infallible, CancelWithError<&str>> = Err(CancelWithError("why"));
    assert_eq!(
        CancelWith::<u8, &str>::from_error_residual(absorbed),
        CancelWith::Cancelled("why"),
    );
}

#[test]
fn cancel_with_error_reason_accessors() {
    assert_eq!(CancelWithError("stopped").to_string(), "operation cancelled: stopped");
    let error = CancelWithError("stopped");
    assert_eq!(error.reason(), &"stopped");
    assert_eq!(CancelWithError("stopped").into_reason(), "stopped");
}

#[test]
fn cancel_with_error_message_renders_any_display_reason() {
    assert_eq!(CancelWithError(42u32).to_string(), "operation cancelled: 42");
}
