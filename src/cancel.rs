//! The process-wide cooperative shutdown signal.
use vstd::prelude::*;

verus! {

/// A shutdown signal: once cancelled it stays cancelled.
#[derive(Clone, Copy, Debug, PartialEq, Eq, Structural)]
pub struct CancelSignal {
    pub cancelled: bool,
}

/// One task's view of the signal: whether it has already been told.
#[derive(Clone, Copy, Debug, PartialEq, Eq, Structural)]
pub struct CancelWaiter {
    pub notified: bool,
}

impl CancelSignal {
    /// A signal that has not fired.
    pub fn new() -> (r: CancelSignal)
        ensures
            !r.cancelled,
    {
        CancelSignal { cancelled: false }
    }

    /// Fires the signal; firing it again changes nothing.
    pub fn cancel(&mut self)
        ensures
            final(self).cancelled,
    {
        self.cancelled = true;
    }

    /// Whether the signal has fired.
    pub fn is_cancelled(&self) -> (r: bool)
        ensures
            r == self.cancelled,
    {
        self.cancelled
    }
}

impl CancelWaiter {
    /// A waiter that has not observed the signal.
    pub fn new() -> (r: CancelWaiter)
        ensures
            !r.notified,
    {
        CancelWaiter { notified: false }
    }

    /// Reports the cancellation to this waiter: `true` the first time it is
    /// polled after the signal fired, and never again.
    pub fn poll(&mut self, sig: &CancelSignal) -> (r: bool)
        ensures
            r == (sig.cancelled && !old(self).notified),
            final(self).notified == (old(self).notified || sig.cancelled),
    {
        if sig.cancelled && !self.notified {
            self.notified = true;
            true
        } else {
            false
        }
    }
}

} // verus!
