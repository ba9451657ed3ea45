//! Counting allocations inside realtime audio callbacks.
//!
//! Each thread has a flag that is set while it runs a callback; all threads
//! share one count.

use vstd::prelude::*;

verus! {

/// A stay inside a callback. It knows what the thread's flag was before.
#[derive(Debug)]
pub struct RealtimeCallbackGuard {
    pub previous: bool,
}

impl RealtimeCallbackGuard {
    /// Enters a callback: the thread's flag is set.
    pub fn enter(active: &mut bool) -> (r: RealtimeCallbackGuard)
        ensures
            *final(active),
            r.previous == *old(active),
    {
        let previous = *active;
        *active = true;
        RealtimeCallbackGuard { previous }
    }

    /// Leaves a callback: the thread's flag is what it was before.
    pub fn leave(self, active: &mut bool)
        ensures
            *final(active) == self.previous,
    {
        *active = self.previous;
    }
}

/// The count after an allocation: one more inside a callback, starting over at
/// the end of its range.
pub open spec fn spec_recorded(active: bool, count: u64) -> u64 {
    if !active {
        count
    } else if count == u64::MAX {
        0
    } else {
        (count + 1) as u64
    }
}

/// The count after an allocation on a thread with the given flag.
pub fn record_callback_allocation(active: bool, count: u64) -> (r: u64)
    ensures
        r == spec_recorded(active, count),
{
    if !active {
        count
    } else if count == u64::MAX {
        0
    } else {
        count + 1
    }
}

/// Outside of callbacks nothing is counted; inside, each allocation counts
/// once, as far as the count reaches.
pub proof fn law_callback_allocations_are_counted(active: bool, count: u64)
    ensures
        !active ==> spec_recorded(active, count) == count,
        active && count < u64::MAX ==> spec_recorded(active, count) == count + 1,
        active && count == u64::MAX ==> spec_recorded(active, count) == 0,
{
}

} // verus!
