//! A millisecond clock driven by a periodic timer interrupt.
//!
//! The library holds the logic of the clock: how the timer is set up for a
//! one-millisecond period, the tick counter the interrupt advances, the
//! shared slot that holds the counter once it is installed, and the decision
//! of when a busy-wait delay is over. The interrupt handler, the critical
//! section around the shared slot and the spin loop itself belong to the
//! firmware that uses the library.
pub mod counter;
pub mod delay;
pub mod laws;
pub mod setup;
pub mod shared;
