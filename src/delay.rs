//! The decision behind a busy-wait delay.
//!
//! The firmware reads the clock once to start a delay, then spins, reading
//! the clock again on each turn, until `is_elapsed` says the delay is over.
use vstd::prelude::*;

verus! {

/// The ticks from `start` to `now`, counted modulo the width of the clock,
/// so that a span over the wraparound is still measured correctly.
pub open spec fn ticks_since(start: u64, now: u64) -> u64 {
    if now >= start {
        (now - start) as u64
    } else {
        (now - start + 0x1_0000_0000_0000_0000) as u64
    }
}

/// A delay of `duration` milliseconds started when the clock read `start`.
#[derive(Clone, Copy, Debug, PartialEq, Eq, Structural)]
pub struct Delay {
    pub start: u64,
    pub duration: u64,
}

impl Delay {
    /// The clock reading at which the delay is over, when it does not pass
    /// the wraparound: the start plus the duration.
    pub open spec fn deadline(self) -> int {
        self.start + self.duration
    }

    /// Whether the delay is over at the clock reading `now`: at least
    /// `duration` ticks have gone by since the start.
    pub open spec fn elapsed_at(self, now: u64) -> bool {
        ticks_since(self.start, now) >= self.duration
    }

    /// Starts a delay of `duration` milliseconds at the clock reading `now`.
    pub fn new(now: u64, duration: u64) -> (r: Delay)
        ensures
            r.start == now,
            r.duration == duration,
    {
        Delay { start: now, duration }
    }

    /// Whether the delay is over at the clock reading `now`.
    pub fn is_elapsed(&self, now: u64) -> (r: bool)
        ensures
            r == self.elapsed_at(now),
    {
        now.wrapping_sub(self.start) >= self.duration
    }
}

} // verus!
