//! Properties of the clock that hold over several calls.
use vstd::prelude::*;
use crate::counter::{after_ticks, next_tick};
use crate::delay::{ticks_since, Delay};
use crate::shared::{fired, read_count};

verus! {

/// An event on the shared clock: a firing of the timer interrupt, or a read
/// of the elapsed time by the main program. The critical section puts every
/// event in one order.
#[derive(Clone, Copy, Debug, PartialEq, Eq, Structural)]
pub enum ClockEvent {
    Fire,
    Read,
}

/// The shared clock's state after one event. A read leaves it as it was.
pub open spec fn step(state: Option<u64>, e: ClockEvent) -> Option<u64> {
    match e {
        ClockEvent::Fire => fired(state),
        ClockEvent::Read => state,
    }
}

/// The shared clock's state after the events, in order.
pub open spec fn replay(state: Option<u64>, events: Seq<ClockEvent>) -> Option<u64>
    decreases events.len(),
{
    if events.len() == 0 {
        state
    } else {
        step(replay(state, events.drop_last()), events.last())
    }
}

/// The number of firings among the events.
pub open spec fn fires(events: Seq<ClockEvent>) -> nat
    decreases events.len(),
{
    if events.len() == 0 {
        0
    } else {
        fires(events.drop_last()) + if events.last() == ClockEvent::Fire { 1nat } else { 0nat }
    }
}

/// `n` ticks from `t` give `t + n` modulo the width of the counter: at the
/// largest count the next tick gives zero.
pub proof fn lemma_ticks_wrap(t: u64, n: nat)
    ensures
        after_ticks(t, n) == (t + n) % 0x1_0000_0000_0000_0000,
    decreases n,
{
    if n > 0 {
        lemma_ticks_wrap(t, (n - 1) as nat);
    }
}

/// Exact increment: while the counter does not wrap, `n` ticks from `t`
/// give exactly `t + n`.
pub proof fn lemma_ticks_exact(t: u64, n: nat)
    requires
        t + n <= u64::MAX,
    ensures
        after_ticks(t, n) == t + n,
{
    lemma_ticks_wrap(t, n);
}

/// Monotonicity: while the counter does not wrap, a later reading is never
/// smaller than an earlier one.
pub proof fn lemma_ticks_monotonic(t: u64, n1: nat, n2: nat)
    requires
        n1 <= n2,
        t + n2 <= u64::MAX,
    ensures
        after_ticks(t, n1) <= after_ticks(t, n2),
{
    lemma_ticks_exact(t, n1);
    lemma_ticks_exact(t, n2);
}

/// A firing at the largest count gives the smallest.
pub proof fn lemma_tick_at_max_wraps()
    ensures
        next_tick(u64::MAX) == 0,
{
}

/// Any order of firings and reads on an installed counter leaves the count
/// advanced by the number of firings; reads change nothing.
pub proof fn lemma_replay_installed(t: u64, events: Seq<ClockEvent>)
    ensures
        replay(Some(t), events) == Some(after_ticks(t, fires(events))),
    decreases events.len(),
{
    if events.len() > 0 {
        lemma_replay_installed(t, events.drop_last());
    }
}

/// Before a counter is installed, firings are ignored and every read gives
/// zero.
pub proof fn lemma_uninstalled_reads_zero(events: Seq<ClockEvent>)
    ensures
        replay(None, events) == None::<u64>,
        read_count(replay(None, events)) == 0,
    decreases events.len(),
{
    if events.len() > 0 {
        lemma_uninstalled_reads_zero(events.drop_last());
    }
}

/// No tick is lost or counted twice: in any order of firings and reads on a
/// counter installed at zero, each read returns the number of firings that
/// came before it, as long as the count does not wrap.
pub proof fn lemma_reads_count_prior_fires(events: Seq<ClockEvent>, i: int)
    requires
        0 <= i < events.len(),
        events[i] == ClockEvent::Read,
        fires(events.take(i)) <= u64::MAX,
    ensures
        read_count(replay(Some(0), events.take(i))) == fires(events.take(i)),
{
    lemma_replay_installed(0, events.take(i));
    lemma_ticks_exact(0, fires(events.take(i)));
}

/// A delay is over exactly when at least its duration in ticks has fired
/// since it started, also where those ticks pass the counter's wraparound.
pub proof fn lemma_delay_counts_ticks(d: Delay, n: nat)
    requires
        n <= u64::MAX,
    ensures
        ticks_since(d.start, after_ticks(d.start, n)) == n,
        d.elapsed_at(after_ticks(d.start, n)) <==> n >= d.duration,
{
    lemma_ticks_wrap(d.start, n);
}

/// Deadline correctness: where the deadline does not pass the wraparound, a
/// delay is over at a reading from its start on exactly when the reading
/// has reached the start plus the duration.
pub proof fn lemma_delay_deadline(d: Delay, now: u64)
    requires
        d.start <= now,
        d.deadline() <= u64::MAX,
    ensures
        d.elapsed_at(now) <==> now >= d.deadline(),
{
}

/// Bounded overshoot: where the deadline does not pass the wraparound, the
/// first tick at which a delay is over is the deadline itself.
pub proof fn lemma_delay_ends_at_deadline(d: Delay, before: u64)
    requires
        d.start <= before < u64::MAX,
        d.deadline() <= u64::MAX,
        !d.elapsed_at(before),
        d.elapsed_at(next_tick(before)),
    ensures
        next_tick(before) == d.deadline(),
{
}

} // verus!
