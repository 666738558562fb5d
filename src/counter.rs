//! The tick counter that the timer interrupt advances.
use vstd::prelude::*;

verus! {

/// The count after one more tick: one more, except at the largest value,
/// where the count wraps to zero.
pub open spec fn next_tick(t: u64) -> u64 {
    if t == u64::MAX {
        0
    } else {
        (t + 1) as u64
    }
}

/// The count after `n` ticks from `t`.
pub open spec fn after_ticks(t: u64, n: nat) -> u64
    decreases n,
{
    if n == 0 {
        t
    } else {
        next_tick(after_ticks(t, (n - 1) as nat))
    }
}

/// Counts the firings of a periodic timer, and owns the timer's handle so
/// that nothing else can reconfigure it.
pub struct TickCounter<H> {
    timer: H,
    millis: u64,
}

impl<H> TickCounter<H> {
    /// The number of ticks counted so far.
    pub closed spec fn count(&self) -> u64 {
        self.millis
    }

    /// The timer handle the counter owns.
    pub closed spec fn timer(&self) -> H {
        self.timer
    }

    /// A counter at zero that owns the given, already configured, timer.
    pub fn new(timer: H) -> (r: Self)
        ensures
            r.count() == 0,
            r.timer() == timer,
    {
        TickCounter { timer, millis: 0 }
    }

    /// A counter that resumes at the given count.
    pub fn with_count(timer: H, count: u64) -> (r: Self)
        ensures
            r.count() == count,
            r.timer() == timer,
    {
        TickCounter { timer, millis: count }
    }

    /// Records one firing of the timer. At the largest count it wraps to zero.
    pub fn tick(&mut self)
        ensures
            final(self).count() == next_tick(old(self).count()),
            final(self).timer() == old(self).timer(),
    {
        self.millis = self.millis.wrapping_add(1);
    }

    /// The number of ticks counted so far.
    pub fn get(&self) -> (r: u64)
        ensures
            r == self.count(),
    {
        self.millis
    }
}

} // verus!
