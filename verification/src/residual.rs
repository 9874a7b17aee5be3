use vstd::prelude::*;

verus! {

/// Marker for residual types that belong to this crate's outcome family.
pub trait TryxResidual {}

} // verus!
