//! The render trigger: a single-slot wake signal.
//!
//! Any task that changed something worth drawing signals the trigger; the
//! render task is its only consumer.  The slot carries no payload and holds
//! at most one pending wake-up, so signals raised before the next take
//! coalesce into one.  That loses nothing: the render task re-reads the
//! shared state when it wakes, so one wake-up after the last mutation is
//! enough.

use vstd::prelude::*;

verus! {

/// The single-slot notification used to wake the render task.
#[derive(Debug, Clone, Copy, PartialEq, Eq, Structural)]
pub struct RenderTrigger {
    /// Whether a wake-up is pending.
    pub pending: bool,
}

impl RenderTrigger {
    /// A fresh trigger with no wake-up pending.
    pub fn new() -> (r: Self)
        ensures
            !r.pending,
    {
        RenderTrigger { pending: false }
    }

    /// Raises the signal.  Signals coalesce: raising an already-raised
    /// trigger changes nothing.
    pub fn signal(&mut self)
        ensures
            final(self).pending,
    {
        self.pending = true;
    }

    /// Consumes the pending wake-up, reporting whether there was one.
    /// However many signals arrived since the last take, one take consumes
    /// them all.
    pub fn take(&mut self) -> (r: bool)
        ensures
            r == old(self).pending,
            !final(self).pending,
    {
        let was = self.pending;
        self.pending = false;
        was
    }
}

} // verus!
