use core::convert::Infallible;
use core::ops::ControlFlow;
use vstd::prelude::*;

pub use crate::cancel_token::{CancelHandle, CancelToken};
use crate::residual::TryxResidual;
use vstd::string::to_string_from_display_ensures;

verus! {

/// A computation that can stop early when cancellation is requested.
#[derive(Debug, Clone, Copy, PartialEq, Eq)]
pub enum Cancel<T> {
    /// Completed with a value.
    Done(T),
    /// Stopped because cancellation was requested.
    Cancelled,
}

impl<T> Cancel<T> {
    /// Return a successful cancellation-aware value.
    pub fn ok(value: T) -> (res: Self)
        ensures
            res == Cancel::Done(value),
    {
        Cancel::Done(value)
    }

    /// Return a cancelled value.
    pub fn cancelled() -> (res: Self)
        ensures
            res == Cancel::<T>::Cancelled,
    {
        Cancel::Cancelled
    }

    /// Transform a successful value.
    pub fn map<U>(self, f: impl FnOnce(T) -> U) -> (res: Cancel<U>)
        requires
            self matches Cancel::Done(v) ==> call_requires(f, (v,)),
        ensures
            match self {
                Cancel::Done(v) => res matches Cancel::Done(u) && call_ensures(f, (v,), u),
                Cancel::Cancelled => res == Cancel::<U>::Cancelled,
            },
    {
        match self {
            Cancel::Done(value) => Cancel::Done(f(value)),
            Cancel::Cancelled => Cancel::Cancelled,
        }
    }

    /// Chain another cancellation-aware computation after a successful value.
    pub fn and_then<U>(self, f: impl FnOnce(T) -> Cancel<U>) -> (res: Cancel<U>)
        requires
            self matches Cancel::Done(v) ==> call_requires(f, (v,)),
        ensures
            match self {
                Cancel::Done(v) => call_ensures(f, (v,), res),
                Cancel::Cancelled => res == Cancel::<U>::Cancelled,
            },
    {
        match self {
            Cancel::Done(value) => f(value),
            Cancel::Cancelled => Cancel::Cancelled,
        }
    }

    /// Wrap the value that `?` continues with.
    #[verifier::allow_in_spec]
    pub fn from_output(output: T) -> Self
        returns
            Cancel::Done(output),
    {
        Cancel::Done(output)
    }

    /// Split into the value that continues and the residual that short-circuits.
    #[verifier::allow_in_spec]
    pub fn branch(self) -> ControlFlow<Cancellation, T>
        returns
            match self {
                Cancel::Done(v) => ControlFlow::Continue(v),
                Cancel::Cancelled => ControlFlow::Break(Cancellation),
            },
    {
        match self {
            Cancel::Done(value) => ControlFlow::Continue(value),
            Cancel::Cancelled => ControlFlow::Break(Cancellation),
        }
    }

    /// Rebuild the outcome that a short-circuit carried out.
    #[verifier::allow_in_spec]
    pub fn from_residual(residual: Cancellation) -> Self
        returns
            Cancel::<T>::Cancelled,
    {
        Cancel::Cancelled
    }

    /// Absorb a cancelled `Result`.
    pub fn from_error_residual(residual: Result<Infallible, CancelError>) -> (res: Self)
        ensures
            res == Cancel::<T>::Cancelled,
    {
        Cancel::Cancelled
    }
}

/// Residual produced when a `Cancel<T>` short-circuits.
#[derive(Debug, Clone, Copy, PartialEq, Eq)]
pub struct Cancellation;

impl TryxResidual for Cancellation {}

impl Cancellation {
    /// Absorb the short-circuit into a `Result` whose error converts from `CancelError`.
    pub fn into_result<T, E: From<CancelError>>(self) -> (res: Result<T, E>)
        ensures
            res matches Err(e) && call_ensures(E::from, (CancelError,), e),
    {
        Err(CancelError.into())
    }
}

/// Error adapter used when a cancelled computation is absorbed by `Result`.
#[derive(Debug, Clone, Copy, PartialEq, Eq)]
pub struct CancelError;

impl CancelError {
    /// The message this error displays.
    pub fn to_string(&self) -> (text: String)
        ensures
            text@ == "operation cancelled"@,
    {
        String::from_str("operation cancelled")
    }
}

/// A computation that can stop early with a caller-defined reason.
#[derive(Debug, Clone, Copy, PartialEq, Eq)]
pub enum CancelWith<T, R> {
    /// Completed with a value.
    Done(T),
    /// Stopped with a reason.
    Cancelled(R),
}

impl<T, R> CancelWith<T, R> {
    /// Return a successful cancellation-aware value.
    pub fn ok(value: T) -> (res: Self)
        ensures
            res == CancelWith::<T, R>::Done(value),
    {
        CancelWith::Done(value)
    }

    /// Return a cancelled value with a reason.
    pub fn cancelled(reason: R) -> (res: Self)
        ensures
            res == CancelWith::<T, R>::Cancelled(reason),
    {
        CancelWith::Cancelled(reason)
    }

    /// Transform a successful value; a reason passes through unchanged.
    pub fn map<U>(self, f: impl FnOnce(T) -> U) -> (res: CancelWith<U, R>)
        requires
            self matches CancelWith::Done(v) ==> call_requires(f, (v,)),
        ensures
            match self {
                CancelWith::Done(v) => res matches CancelWith::Done(u) && call_ensures(f, (v,), u),
                CancelWith::Cancelled(r) => res == CancelWith::<U, R>::Cancelled(r),
            },
    {
        match self {
            CancelWith::Done(value) => CancelWith::Done(f(value)),
            CancelWith::Cancelled(reason) => CancelWith::Cancelled(reason),
        }
    }

    /// Chain another reason-carrying cancellation-aware computation.
    pub fn and_then<U>(self, f: impl FnOnce(T) -> CancelWith<U, R>) -> (res: CancelWith<U, R>)
        requires
            self matches CancelWith::Done(v) ==> call_requires(f, (v,)),
        ensures
            match self {
                CancelWith::Done(v) => call_ensures(f, (v,), res),
                CancelWith::Cancelled(r) => res == CancelWith::<U, R>::Cancelled(r),
            },
    {
        match self {
            CancelWith::Done(value) => f(value),
            CancelWith::Cancelled(reason) => CancelWith::Cancelled(reason),
        }
    }

    /// Wrap the value that `?` continues with.
    #[verifier::allow_in_spec]
    pub fn from_output(output: T) -> Self
        returns
            CancelWith::<T, R>::Done(output),
    {
        CancelWith::Done(output)
    }

    /// Split into the value that continues and the residual that short-circuits.
    #[verifier::allow_in_spec]
    pub fn branch(self) -> ControlFlow<CancellationReason<R>, T>
        returns
            match self {
                CancelWith::Done(v) => ControlFlow::Continue(v),
                CancelWith::Cancelled(r) => ControlFlow::Break(CancellationReason(r)),
            },
    {
        match self {
            CancelWith::Done(value) => ControlFlow::Continue(value),
            CancelWith::Cancelled(reason) => ControlFlow::Break(CancellationReason(reason)),
        }
    }

    /// Rebuild the outcome that a short-circuit carried out.
    #[verifier::allow_in_spec]
    pub fn from_residual(residual: CancellationReason<R>) -> Self
        returns
            CancelWith::<T, R>::Cancelled(residual.0),
    {
        CancelWith::Cancelled(residual.0)
    }

    /// Absorb a `Result` that failed with a reason.
    pub fn from_error_residual(residual: Result<Infallible, CancelWithError<R>>) -> (res: Self)
        ensures
            residual matches Err(e) ==> res == CancelWith::<T, R>::Cancelled(e.0),
    {
        match residual {
            Err(error) => CancelWith::Cancelled(error.into_reason()),
        }
    }
}

/// Residual produced when `CancelWith<T, R>` short-circuits.
#[derive(Debug, Clone, Copy, PartialEq, Eq)]
pub struct CancellationReason<R>(pub R);

impl<R> TryxResidual for CancellationReason<R> {}

impl<R> CancellationReason<R> {
    /// Absorb the short-circuit into a `Result` whose error converts from
    /// `CancelWithError<R>`, keeping the reason.
    pub fn into_result<T, E: From<CancelWithError<R>>>(self) -> (res: Result<T, E>)
        ensures
            res matches Err(e) && call_ensures(E::from, (CancelWithError(self.0),), e),
    {
        Err(CancelWithError(self.0).into())
    }
}

/// Error adapter used when `CancelWith<T, R>` is absorbed by `Result`.
#[derive(Debug, Clone, Copy, PartialEq, Eq)]
pub struct CancelWithError<R>(pub R);

impl<R: core::fmt::Display> CancelWithError<R> {
    /// The message this error displays: a fixed prefix, then the reason as
    /// its `Display` impl renders it.
    pub fn to_string(&self) -> (text: String)
        ensures
            exists|shown: String|
                #[trigger] to_string_from_display_ensures::<R>(&self.0, shown)
                && text@ == "operation cancelled: "@ + shown@,
    {
        let shown = self.0.to_string();
        let mut text = String::from_str("operation cancelled: ");
        text.append(shown.as_str());
        assert(to_string_from_display_ensures::<R>(&self.0, shown));
        text
    }
}

impl<R> CancelWithError<R> {
    /// Borrow the cancellation reason.
    pub fn reason(&self) -> (r: &R)
        ensures
            *r == self.0,
    {
        &self.0
    }

    /// Return the cancellation reason.
    pub fn into_reason(self) -> (r: R)
        ensures
            r == self.0,
    {
        self.0
    }
}

} // verus!
