use vstd::prelude::*;

verus! {

/// A future that gives way once: the first poll schedules the task again
/// and waits, the second completes.
pub struct YieldNow {
    yielded: bool,
}

impl YieldNow {
    pub closed spec fn spec_yielded(&self) -> bool {
        self.yielded
    }

    /// One poll: true when the future is complete; on the first poll it
    /// records that it gave way, and the caller reschedules the task.
    pub fn poll_step(&mut self) -> (ready: bool)
        ensures
            ready == old(self).spec_yielded(),
            final(self).spec_yielded(),
    {
        if self.yielded {
            return true;
        }
        self.yielded = true;
        false
    }
}

/// A future that gives way to the other tasks once.
pub fn yield_now() -> (res: YieldNow)
    ensures
        !res.spec_yielded(),
{
    YieldNow { yielded: false }
}

} // verus!
