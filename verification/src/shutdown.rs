//! The shutdown coordinator: a single-slot, single-use notification. The
//! dispatcher signals it after a successful unlock and the server loop
//! drains it to stop accepting connections. Signalling never blocks and
//! never fails: a slot that already holds a signal is left as it is, so
//! one delivered signal is all that repeated sends amount to.

use vstd::prelude::*;

verus! {

/// A single-slot shutdown notification.
pub struct ShutdownSignal {
    pending: bool,
}

impl ShutdownSignal {
    /// Whether a signal has been delivered and not yet consumed.
    pub closed spec fn pending(&self) -> bool {
        self.pending
    }

    /// An empty slot: no shutdown requested yet.
    pub fn new() -> (r: Self)
        ensures
            !r.pending(),
    {
        ShutdownSignal { pending: false }
    }

    /// Requests shutdown. Never blocks and never errors: the slot holds a
    /// pending signal afterwards whatever it held before, so a second call
    /// is a no-op and two calls deliver exactly what one does.
    pub fn signal(&mut self)
        ensures
            final(self).pending(),
            old(self).pending() ==> *final(self) == *old(self),
    {
        self.pending = true;
    }

    /// Consumes a pending signal, saying whether there was one. The slot
    /// is empty afterwards.
    pub fn try_take(&mut self) -> (r: bool)
        ensures
            r == old(self).pending(),
            !final(self).pending(),
    {
        let was = self.pending;
        self.pending = false;
        was
    }
}

} // verus!
