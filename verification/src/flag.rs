//! The shared stop flag and its one-way lifecycle.
//!
//! The flag is the only mutable state shared between the background loop
//! and the cancellation handle: it starts lowered, is raised by the handle,
//! and never reverts. Raising it again changes nothing, so the handle may
//! be called any number of times.

use vstd::prelude::*;

verus! {

/// The stop flag's logical state. In a running scheduler the cell is read
/// by the background loop once per iteration and written only by the
/// cancellation handle.
pub struct StopFlag {
    pub stopped: bool,
}

/// What a cancellation request leaves behind: the raised flag, whatever
/// the flag held before.
pub open spec fn spec_cancel(f: StopFlag) -> StopFlag {
    StopFlag { stopped: true }
}

impl StopFlag {
    /// A fresh flag is lowered: no stop has been requested.
    pub fn new() -> (f: StopFlag)
        ensures
            !f.stopped,
    {
        StopFlag { stopped: false }
    }

    /// Request cancellation: raise the flag. The transition is one-way —
    /// a raised flag stays raised — and only the first call changes the
    /// flag at all.
    pub fn cancel(&mut self)
        ensures
            *final(self) == spec_cancel(*old(self)),
            final(self).stopped,
    {
        self.stopped = true;
    }

    /// Whether a stop has been requested.
    pub fn is_set(&self) -> (r: bool)
        ensures
            r == self.stopped,
    {
        self.stopped
    }
}

/// Cancelling twice — and so any number of times — leaves the flag exactly
/// as cancelling once does: cancellation is idempotent.
pub proof fn lemma_cancel_idempotent(f: StopFlag)
    ensures
        spec_cancel(spec_cancel(f)) == spec_cancel(f),
{
}

} // verus!
