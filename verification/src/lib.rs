//! Outcome types whose success value continues and whose residual
//! short-circuits, each with the `Try`-style protocol (`branch`,
//! `from_output`, `from_residual`) written out as verified functions.

pub mod cancel;
pub mod cancel_token;
pub mod checked;
pub mod laws;
pub mod outcome;
pub mod parsing;
pub mod residual;
pub mod stage;

pub use residual::TryxResidual;
