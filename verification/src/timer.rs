use vstd::prelude::*;

verus! {

use crate::pac::Timer1;
use crate::time::Duration;

/// The timer service: a blocking millisecond delay built on a
/// free-running hardware counter.
///
/// The counter is modeled as advancing one tick per observation — the
/// tick that passes between two consecutive reads of a running counter.
/// A delay holds no state between calls beyond the counter itself, and
/// it never masks interrupts: handlers that fire during the busy-wait
/// merely stretch the wall-clock time, not the counted ticks.
pub struct Timer {
    cnt: u64,
}

impl Timer1 {
    /// Claim the timer service of this block, with the counter at its
    /// reset value.
    pub fn timer(self) -> (t: Timer)
        ensures
            t.spec_ticks() == 0,
    {
        Timer { cnt: 0 }
    }
}

impl Timer {
    /// The value the free-running counter has reached.
    pub closed spec fn spec_ticks(self) -> u64 {
        self.cnt
    }

    /// The counter value already reached, without letting time pass: a
    /// harness-side peek, not an observation the hardware would see.
    pub fn ticks(&self) -> (t: u64)
        ensures
            t == self.spec_ticks(),
    {
        self.cnt
    }

    /// Observe the free-running counter. Time passes while the caller
    /// runs, so each observation finds the counter one tick further on
    /// and reports the tick at which it looked.
    pub fn read_count(&mut self) -> (t: u64)
        requires
            old(self).spec_ticks() < u64::MAX,
        ensures
            t == old(self).spec_ticks(),
            final(self).spec_ticks() == old(self).spec_ticks() + 1,
    {
        let t = self.cnt;
        self.cnt = self.cnt + 1;
        t
    }

    /// Busy-wait until at least `d` has elapsed on the counter, then
    /// return.
    ///
    /// Law: the delay returns no earlier than `d` ticks after its first
    /// observation of the counter, and overshoots by at most one tick —
    /// "at least as long as requested", with no finer rounding promise.
    pub fn delay(&mut self, d: Duration)
        requires
            old(self).spec_ticks() + d.ms + 1 <= u64::MAX,
        ensures
            final(self).spec_ticks() >= old(self).spec_ticks() + d.ms,
            final(self).spec_ticks() <= old(self).spec_ticks() + d.ms + 1,
    {
        let start = self.read_count();
        let mut now = start;
        while now - start < d.ms as u64
            invariant
                start <= now,
                now <= start + d.ms,
                self.spec_ticks() == now + 1,
                start + d.ms + 1 <= u64::MAX,
            decreases start + d.ms - now,
        {
            now = self.read_count();
        }
    }
}

} // verus!
