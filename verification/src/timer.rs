//! The frame timer: the time of the current frame and of the one before.

use vstd::prelude::*;

verus! {

/// Keeps the time of the current frame and of the previous one. Times are
/// readings of a monotonic clock in nanoseconds.
#[derive(Clone, Copy, Debug)]
pub struct Timer {
    time: u64,
    last: u64,
}

impl Timer {
    /// The time of the current frame.
    pub closed spec fn spec_time(&self) -> u64 {
        self.time
    }

    /// The time of the previous frame; that of the current frame before the
    /// first tick.
    pub closed spec fn spec_last(&self) -> u64 {
        self.last
    }

    /// The previous frame is never later than the current one.
    #[verifier::type_invariant]
    pub closed spec fn ordered(&self) -> bool {
        self.last <= self.time
    }

    /// A timer whose current and previous frame are both at `time`.
    pub fn new(time: u64) -> (t: Timer)
        ensures
            t.spec_time() == time,
            t.spec_last() == time,
    {
        Timer { time, last: time }
    }

    /// The time of the current frame.
    #[verifier::when_used_as_spec(spec_time)]
    pub fn time(&self) -> (t: u64)
        ensures
            t == self.spec_time(),
    {
        self.time
    }

    /// The time between the previous frame and the current one.
    pub fn delta(&self) -> (d: u64)
        ensures
            d == self.spec_time() - self.spec_last(),
    {
        proof {
            use_type_invariant(self);
        }
        self.time - self.last
    }

    /// Starts a new frame at `time`, which must not lie before the current
    /// frame.
    pub fn tick(&mut self, time: u64)
        requires
            time >= old(self).spec_time(),
        ensures
            final(self).spec_last() == old(self).spec_time(),
            final(self).spec_time() == time,
    {
        self.last = self.time;
        self.time = time;
    }
}

} // verus!
