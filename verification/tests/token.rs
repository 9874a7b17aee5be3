use tryx::cancel::{Cancel, CancelToken};
use tryx::cancel_token::check_flag;

#[derive(Debug, PartialEq, Eq)]
struct AppError;

impl From<tryx::cancel::CancelError> for AppError {
    fn from(_: tryx::cancel::CancelError) -> Self {
        Self
    }
}

fn maybe_cancel(cancel: bool) -> Cancel<u8> {
    if cancel {
        Cancel::cancelled()
    } else {
        Cancel::ok(7)
    }
}

fn result_from_cancel() -> Result<u8, AppError> {
    let value = match maybe_cancel(false).branch() {
        std::ops::ControlFlow::Continue(value) => value,
        std::ops::ControlFlow::Break(residual) => return residual.into_result(),
    };
    Ok(value)
}

#[test]
fn umbrella_reexports_cancel_api() {
    assert_eq!(maybe_cancel(false), Cancel::Done(7));
    assert_eq!(result_from_cancel(), Ok(7));
}

#[test]
fn umbrella_cancel_feature_includes_token_support() {
    let (token, handle) = CancelToken::new();
    assert_eq!(token.check(), Cancel::Done(()));

    handle.cancel();
    assert_eq!(token.check(), Cancel::Cancelled);
}

#[test]
fn cloned_token_sees_cancellation() {
    let (token, handle) = CancelToken::new();
    let other = token.clone();
    let other_handle = handle.clone();
    other_handle.cancel();
    assert_eq!(token.check(), Cancel::Cancelled);
    assert_eq!(other.check(), Cancel::Cancelled);
    handle.cancel();
    assert_eq!(token.check(), Cancel::Cancelled);
}

#[test]
fn check_flag_outcomes() {
    assert_eq!(check_flag(false), Cancel::Done(()));
    assert_eq!(check_flag(true), Cancel::Cancelled);
}
