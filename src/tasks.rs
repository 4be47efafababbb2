//! The bookkeeping behind concurrent relay work: how many units of work are
//! in flight, so that shutdown can wait for all of them, and a latch for the
//! work that must run once per process.

use vstd::prelude::*;

verus! {

/// The number of units of work in flight.
pub struct TaskCounter {
    running: u64,
}

impl TaskCounter {
    pub closed spec fn count(&self) -> nat {
        self.running as nat
    }

    /// No work in flight.
    pub fn new() -> (r: TaskCounter)
        ensures
            r.count() == 0,
    {
        TaskCounter { running: 0 }
    }

    /// The number of units in flight.
    pub fn running(&self) -> (r: u64)
        ensures
            r == self.count(),
    {
        self.running
    }

    /// Counts a unit of work that starts. At the counter's limit the unit is
    /// refused (`false`) and nothing changes.
    pub fn task_started(&mut self) -> (r: bool)
        ensures
            r == (old(self).count() < u64::MAX),
            r ==> final(self).count() == old(self).count() + 1,
            !r ==> final(self).count() == old(self).count(),
    {
        if self.running == u64::MAX {
            false
        } else {
            self.running = self.running + 1;
            true
        }
    }

    /// Counts a unit of work that ended, however it ended. Returns whether
    /// it was the last one: the moment a waiting drain must be woken.
    pub fn task_finished(&mut self) -> (r: bool)
        ensures
            final(self).count() == if old(self).count() > 0 {
                old(self).count() - 1
            } else {
                0
            },
            r == (old(self).count() == 1),
    {
        if self.running == 0 {
            false
        } else {
            self.running = self.running - 1;
            self.running == 0
        }
    }

    /// Whether a drain may complete now: no work is in flight.
    pub fn is_idle(&self) -> (r: bool)
        ensures
            r == (self.count() == 0),
    {
        self.running == 0
    }
}

/// A latch that lets a piece of work run once.
pub struct OnceLatch {
    fired: bool,
}

impl OnceLatch {
    pub closed spec fn has_fired(&self) -> bool {
        self.fired
    }

    pub fn new() -> (r: OnceLatch)
        ensures
            !r.has_fired(),
    {
        OnceLatch { fired: false }
    }

    /// Whether the caller is the first to get here: true exactly once.
    pub fn fire(&mut self) -> (r: bool)
        ensures
            r == !old(self).has_fired(),
            final(self).has_fired(),
    {
        let first = !self.fired;
        self.fired = true;
        first
    }
}

} // verus!
