//! Setting up the periodic timer for a one-millisecond tick.
use vstd::prelude::*;

verus! {

/// Ticks per second: one tick is one millisecond.
pub const TICKS_PER_SECOND: u32 = 1000;

/// The reload value that makes a timer clocked at `clock_hz` fire once per
/// millisecond. The timer counts from the reload value down to zero, both
/// included, so a period of `n` cycles takes a reload of `n - 1`.
pub open spec fn reload_for(clock_hz: u32) -> u32
    recommends
        clock_hz >= TICKS_PER_SECOND,
{
    (clock_hz / TICKS_PER_SECOND - 1) as u32
}

/// Computes the reload value for a one-millisecond period.
///
/// A clock slower than one cycle per millisecond cannot give that period,
/// so such a frequency is not accepted.
pub fn reload_value(clock_hz: u32) -> (r: u32)
    requires
        clock_hz >= TICKS_PER_SECOND,
    ensures
        r == reload_for(clock_hz),
{
    clock_hz / TICKS_PER_SECOND - 1
}

/// One step of the timer's one-time configuration.
#[derive(Clone, Copy, Debug, PartialEq, Eq, Structural)]
pub enum TimerCommand {
    /// Clock the timer from the processor core clock.
    UseCoreClock,
    /// Load the given reload value.
    SetReload(u32),
    /// Reset the current count to zero.
    ClearCurrent,
    /// Start counting.
    EnableCounter,
    /// Raise an interrupt each time the count reaches zero.
    EnableInterrupt,
}

/// The configuration sequence, in the order it must be applied: the clock
/// source first, then the reload value, then the reset and the two enables.
pub open spec fn setup_sequence(clock_hz: u32) -> Seq<TimerCommand> {
    seq![
        TimerCommand::UseCoreClock,
        TimerCommand::SetReload(reload_for(clock_hz)),
        TimerCommand::ClearCurrent,
        TimerCommand::EnableCounter,
        TimerCommand::EnableInterrupt,
    ]
}

/// The commands that configure the timer for a one-millisecond tick at the
/// given core clock frequency, in the order they must be applied.
pub fn timer_setup(clock_hz: u32) -> (r: [TimerCommand; 5])
    requires
        clock_hz >= TICKS_PER_SECOND,
    ensures
        r@ == setup_sequence(clock_hz),
{
    let reload = reload_value(clock_hz);
    let r = [
        TimerCommand::UseCoreClock,
        TimerCommand::SetReload(reload),
        TimerCommand::ClearCurrent,
        TimerCommand::EnableCounter,
        TimerCommand::EnableInterrupt,
    ];
    assert(r@ =~= setup_sequence(clock_hz));
    r
}

} // verus!
