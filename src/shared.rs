//! The slot shared between the interrupt handler and the main program.
//!
//! The firmware keeps one `SharedClockState` behind a critical section, so
//! each call below runs with the timer interrupt masked and is never seen
//! half done by the other side.
use vstd::prelude::*;
use crate::counter::{next_tick, TickCounter};

verus! {

/// What one firing does to the shared count: it advances an installed
/// counter and is ignored before one is installed.
pub open spec fn fired(state: Option<u64>) -> Option<u64> {
    match state {
        Some(t) => Some(next_tick(t)),
        None => None,
    }
}

/// What a read of the shared count returns: the count of an installed
/// counter, and zero before one is installed.
pub open spec fn read_count(state: Option<u64>) -> u64 {
    match state {
        Some(t) => t,
        None => 0,
    }
}

/// A holder for at most one tick counter. It starts empty and is filled
/// once, at start-up, before the timer interrupt is unmasked.
pub struct SharedClockState<H> {
    /// Public so that a `static` can be initialized empty as
    /// `SharedClockState { slot: None }`.
    pub slot: Option<TickCounter<H>>,
}

impl<H> View for SharedClockState<H> {
    /// The installed counter's count, or `None` while nothing is installed.
    type V = Option<u64>;

    open spec fn view(&self) -> Option<u64> {
        match self.slot {
            Some(c) => Some(c.count()),
            None => None,
        }
    }
}

impl<H> SharedClockState<H> {
    /// An empty holder.
    pub fn new() -> (r: Self)
        ensures
            r@ == None::<u64>,
    {
        SharedClockState { slot: None }
    }

    /// Stores the counter, replacing the one held before, if any.
    pub fn install(&mut self, counter: TickCounter<H>)
        ensures
            final(self).slot == Some(counter),
            final(self)@ == Some(counter.count()),
    {
        self.slot = Some(counter);
    }

    /// Records one firing of the timer: the installed counter advances by
    /// one tick, and before installation nothing changes.
    pub fn on_fire(&mut self)
        ensures
            final(self)@ == fired(old(self)@),
            final(self).slot is Some <==> old(self).slot is Some,
            old(self).slot is Some ==> final(self).slot->0.timer() == old(self).slot->0.timer(),
    {
        match &mut self.slot {
            Some(counter) => counter.tick(),
            None => {},
        }
    }

    /// The elapsed time in milliseconds: the installed counter's count, or
    /// zero before installation.
    pub fn millis(&self) -> (r: u64)
        ensures
            r == read_count(self@),
    {
        match &self.slot {
            Some(counter) => counter.get(),
            None => 0,
        }
    }
}

} // verus!
