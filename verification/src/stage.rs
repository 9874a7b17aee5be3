use core::convert::Infallible;
use core::ops::ControlFlow;
use vstd::prelude::*;

use crate::residual::TryxResidual;

verus! {

/// Outcome for a staged computation: `S` marks the stage, `T` is the success
/// value and `P` is the partial state carried out when the computation stops.
#[derive(Debug, Clone, Copy, PartialEq, Eq)]
pub enum Stage<S, T, P = ()> {
    Done(T),
    Failed(StageFailure<S, P>),
}

/// Failure from a staged computation.
#[derive(Debug, Clone, Copy, PartialEq, Eq)]
pub struct StageFailure<S, P = ()> {
    pub stage: S,
    pub partial: P,
}

impl<S, P> TryxResidual for StageFailure<S, P> {}

/// Error adapter used when a staged failure is absorbed by `Result`; the
/// partial state is dropped.
#[derive(Debug, Clone, Copy, PartialEq, Eq)]
pub struct StageError<S> {
    pub stage: S,
}

/// `format!("{:?}", value)`: the `Debug` rendering of a caller's stage
/// marker. What it prints is decided by the caller's `Debug` impl, so nothing
/// of the result is stated.
#[verifier::external_body]
fn debug_render<S: core::fmt::Debug>(value: &S) -> String {
    format!("{:?}", value)
}

impl<S: core::fmt::Debug> StageError<S> {
    /// The message this error displays: a fixed prefix, then the stage as
    /// its `Debug` impl renders it.
    pub fn to_string(&self) -> (text: String)
        ensures
            exists|shown: Seq<char>| text@ == "pipeline stopped at stage "@ + shown,
    {
        let shown = debug_render(&self.stage);
        let mut text = String::from_str("pipeline stopped at stage ");
        text.append(shown.as_str());
        assert(text@ == "pipeline stopped at stage "@ + shown@);
        text
    }
}

impl<S, T, P> Stage<S, T, P> {
    /// A completed computation.
    pub fn done(value: T) -> (res: Self)
        ensures
            res == Stage::<S, T, P>::Done(value),
    {
        Stage::Done(value)
    }

    /// A computation that stopped at `stage` holding `partial`.
    pub fn failed(stage: S, partial: P) -> (res: Self)
        ensures
            res == Stage::<S, T, P>::Failed(StageFailure { stage, partial }),
    {
        Stage::Failed(StageFailure { stage, partial })
    }

    /// Transform a successful value; a failure passes through unchanged.
    pub fn map<U>(self, f: impl FnOnce(T) -> U) -> (res: Stage<S, U, P>)
        requires
            self matches Stage::Done(v) ==> call_requires(f, (v,)),
        ensures
            match self {
                Stage::Done(v) => res matches Stage::Done(u) && call_ensures(f, (v,), u),
                Stage::Failed(failure) => res == Stage::<S, U, P>::Failed(failure),
            },
    {
        match self {
            Stage::Done(value) => Stage::Done(f(value)),
            Stage::Failed(failure) => Stage::Failed(failure),
        }
    }

    /// Wrap the value that `?` continues with.
    #[verifier::allow_in_spec]
    pub fn from_output(output: T) -> Self
        returns
            Stage::<S, T, P>::Done(output),
    {
        Stage::Done(output)
    }

    /// Split into the value that continues and the failure that short-circuits.
    #[verifier::allow_in_spec]
    pub fn branch(self) -> ControlFlow<StageFailure<S, P>, T>
        returns
            match self {
                Stage::Done(v) => ControlFlow::Continue(v),
                Stage::Failed(failure) => ControlFlow::Break(failure),
            },
    {
        match self {
            Stage::Done(value) => ControlFlow::Continue(value),
            Stage::Failed(failure) => ControlFlow::Break(failure),
        }
    }

    /// Rebuild the outcome that a short-circuit carried out.
    #[verifier::allow_in_spec]
    pub fn from_residual(residual: StageFailure<S, P>) -> Self
        returns
            Stage::<S, T, P>::Failed(residual),
    {
        Stage::Failed(residual)
    }
}

impl<S, T, P: Default> Stage<S, T, P> {
    /// Absorb a `Result` that stopped at a stage; the partial state is the
    /// default value of `P`.
    pub fn from_error_residual(residual: Result<Infallible, StageError<S>>) -> (res: Self)
        ensures
            residual matches Err(e) ==> res matches Stage::Failed(f) && f.stage == e.stage
                && call_ensures(P::default, (), f.partial),
    {
        match residual {
            Err(error) => {
                let make_default = P::default;
                let partial = make_default();
                Stage::Failed(StageFailure { stage: error.stage, partial })
            },
        }
    }
}

impl<S, P> StageFailure<S, P> {
    /// Absorb the failure into a `Result` whose error converts from
    /// `StageError<S>`; the partial state is dropped.
    pub fn into_result<T, E: From<StageError<S>>>(self) -> (res: Result<T, E>)
        ensures
            res matches Err(e) && call_ensures(E::from, (StageError { stage: self.stage },), e),
    {
        Err(StageError { stage: self.stage }.into())
    }
}

} // verus!
