use core::convert::Infallible;
use core::ops::ControlFlow;
use vstd::prelude::*;

use crate::residual::TryxResidual;

verus! {

/// Outcome for checked floating-point operations.
#[derive(Debug, Clone, Copy, PartialEq)]
pub enum Checked<T> {
    /// Completed with a checked value.
    Done(T),
    /// Stopped because a float operation produced an invalid value.
    Failed(FloatFailure),
}

/// Failure produced by checked floating-point construction or arithmetic.
#[derive(Debug, Clone, Copy, PartialEq, Eq)]
pub enum FloatFailure {
    Nan,
    PosInfinity,
    NegInfinity,
    /// A nonzero value too small for the normal range; reported only when
    /// the caller classifies such values as `FloatClass::Subnormal`.
    Subnormal,
}

impl TryxResidual for FloatFailure {}

/// The class of a floating-point value that decides whether it is accepted.
#[derive(Debug, Clone, Copy, PartialEq, Eq)]
pub enum FloatClass {
    /// Neither NaN nor infinite.
    Finite,
    Nan,
    PosInfinity,
    NegInfinity,
    /// Nonzero and below the normal range, for callers that reject such values.
    Subnormal,
}

/// The failure that a value of `class` is rejected with, if any.
pub open spec fn class_failure(class: FloatClass) -> Option<FloatFailure> {
    match class {
        FloatClass::Finite => None,
        FloatClass::Nan => Some(FloatFailure::Nan),
        FloatClass::PosInfinity => Some(FloatFailure::PosInfinity),
        FloatClass::NegInfinity => Some(FloatFailure::NegInfinity),
        FloatClass::Subnormal => Some(FloatFailure::Subnormal),
    }
}

/// Accept `value` when its class is finite; otherwise fail with the failure
/// that names its class.
pub fn classify<T>(value: T, class: FloatClass) -> (res: Checked<T>)
    ensures
        res == (match class_failure(class) {
            None => Checked::Done(value),
            Some(failure) => Checked::<T>::Failed(failure),
        }),
{
    match class {
        FloatClass::Nan => Checked::Failed(FloatFailure::Nan),
        FloatClass::PosInfinity => Checked::Failed(FloatFailure::PosInfinity),
        FloatClass::NegInfinity => Checked::Failed(FloatFailure::NegInfinity),
        FloatClass::Subnormal => Checked::Failed(FloatFailure::Subnormal),
        FloatClass::Finite => Checked::Done(value),
    }
}

impl<T> Checked<T> {
    /// Transform a successful value; a failure passes through unchanged.
    pub fn map<U>(self, f: impl FnOnce(T) -> U) -> (res: Checked<U>)
        requires
            self matches Checked::Done(v) ==> call_requires(f, (v,)),
        ensures
            match self {
                Checked::Done(v) => res matches Checked::Done(u) && call_ensures(f, (v,), u),
                Checked::Failed(failure) => res == Checked::<U>::Failed(failure),
            },
    {
        match self {
            Checked::Done(value) => Checked::Done(f(value)),
            Checked::Failed(failure) => Checked::Failed(failure),
        }
    }

    /// Convert into a standard `Result`.
    #[verifier::allow_in_spec]
    pub fn into_result(self) -> Result<T, FloatFailure>
        returns
            match self {
                Checked::Done(v) => Ok(v),
                Checked::Failed(failure) => Err::<T, FloatFailure>(failure),
            },
    {
        match self {
            Checked::Done(value) => Ok(value),
            Checked::Failed(failure) => Err(failure),
        }
    }

    /// Wrap the value that `?` continues with.
    #[verifier::allow_in_spec]
    pub fn from_output(output: T) -> Self
        returns
            Checked::Done(output),
    {
        Checked::Done(output)
    }

    /// Split into the value that continues and the failure that short-circuits.
    #[verifier::allow_in_spec]
    pub fn branch(self) -> ControlFlow<FloatFailure, T>
        returns
            match self {
                Checked::Done(v) => ControlFlow::Continue(v),
                Checked::Failed(failure) => ControlFlow::Break(failure),
            },
    {
        match self {
            Checked::Done(value) => ControlFlow::Continue(value),
            Checked::Failed(failure) => ControlFlow::Break(failure),
        }
    }

    /// Rebuild the outcome that a short-circuit carried out.
    #[verifier::allow_in_spec]
    pub fn from_residual(residual: FloatFailure) -> Self
        returns
            Checked::<T>::Failed(residual),
    {
        Checked::Failed(residual)
    }

    /// Absorb a `Result` that failed with a float failure.
    pub fn from_error_residual(residual: Result<Infallible, FloatFailure>) -> (res: Self)
        ensures
            residual matches Err(e) ==> res == Checked::<T>::Failed(e),
    {
        match residual {
            Err(failure) => Checked::Failed(failure),
        }
    }
}

impl FloatFailure {
    /// Absorb the failure into a `Result` whose error converts from `FloatFailure`.
    pub fn into_result<T, E: From<FloatFailure>>(self) -> (res: Result<T, E>)
        ensures
            res matches Err(e) && call_ensures(E::from, (self,), e),
    {
        Err(self.into())
    }

    /// The message this failure displays.
    pub fn to_string(&self) -> (text: String)
        ensures
            text@ == (match *self {
                FloatFailure::Nan => "float operation produced NaN"@,
                FloatFailure::PosInfinity => "float operation produced positive infinity"@,
                FloatFailure::NegInfinity => "float operation produced negative infinity"@,
                FloatFailure::Subnormal => "float operation produced a subnormal value"@,
            }),
    {
        match self {
            FloatFailure::Nan => String::from_str("float operation produced NaN"),
            FloatFailure::PosInfinity => String::from_str("float operation produced positive infinity"),
            FloatFailure::NegInfinity => String::from_str("float operation produced negative infinity"),
            FloatFailure::Subnormal => String::from_str("float operation produced a subnormal value"),
        }
    }
}

} // verus!
