use std::sync::atomic::{AtomicBool, Ordering};
use std::sync::Arc;
use vstd::prelude::*;

use crate::cancel::Cancel;

verus! {

/// Handle checked by cancellation-aware computations.
#[derive(Debug, Clone)]
pub struct CancelToken {
    cancelled: Arc<AtomicBool>,
}

/// Handle used to request cancellation from outside a computation.
#[derive(Debug, Clone)]
pub struct CancelHandle {
    cancelled: Arc<AtomicBool>,
}

/// The outcome a token reports for a given state of its cancellation flag.
#[verifier::allow_in_spec]
pub fn check_flag(cancelled: bool) -> Cancel<()>
    returns
        (if cancelled { Cancel::<()>::Cancelled } else { Cancel::Done(()) }),
{
    if cancelled {
        Cancel::Cancelled
    } else {
        Cancel::Done(())
    }
}

impl CancelToken {
    /// The token's flag and the handle's flag are equal as values. (`new`
    /// shares one `Arc` between them; this predicate does not itself state
    /// that the two point to the same allocation.)
    pub closed spec fn is_paired_with(&self, handle: &CancelHandle) -> bool {
        self.cancelled == handle.cancelled
    }

    /// Create a token and its paired cancellation handle.
    pub fn new() -> (pair: (Self, CancelHandle))
        ensures
            pair.0.is_paired_with(&pair.1),
    {
        let cancelled = Arc::new(AtomicBool::new(false));
        (CancelToken { cancelled: cancelled.clone() }, CancelHandle { cancelled })
    }

    /// Return `Cancel::Cancelled` if cancellation has been requested.
    pub fn check(&self) -> (res: Cancel<()>)
        ensures
            res == check_flag(true) || res == check_flag(false),
    {
        let cancelled = self.cancelled.load(Ordering::Relaxed);
        check_flag(cancelled)
    }
}

impl CancelHandle {
    /// Request cancellation.
    pub fn cancel(&self) {
        self.cancelled.store(true, Ordering::Relaxed);
    }
}

} // verus!
