use systick_clock::counter::TickCounter;
use systick_clock::delay::Delay;
use systick_clock::setup::{reload_value, timer_setup, TimerCommand};
use systick_clock::shared::SharedClockState;

#[test]
fn reload_for_8_mhz() {
    assert_eq!(reload_value(8_000_000), 7999);
}

#[test]
fn reload_for_72_mhz() {
    assert_eq!(reload_value(72_000_000), 71999);
}

#[test]
fn reload_for_slowest_clock() {
    assert_eq!(reload_value(1000), 0);
    assert_eq!(reload_value(1999), 0);
    assert_eq!(reload_value(2000), 1);
}

#[test]
fn setup_runs_in_order() {
    assert_eq!(
        timer_setup(8_000_000),
        [
            TimerCommand::UseCoreClock,
            TimerCommand::SetReload(7999),
            TimerCommand::ClearCurrent,
            TimerCommand::EnableCounter,
            TimerCommand::EnableInterrupt,
        ]
    );
}

#[test]
fn new_counter_starts_at_zero() {
    let c = TickCounter::new(());
    assert_eq!(c.get(), 0);
}

#[test]
fn ticks_add_exactly() {
    let mut c = TickCounter::new(());
    for _ in 0..1000 {
        c.tick();
    }
    assert_eq!(c.get(), 1000);
    let mut d = TickCounter::with_count((), 41);
    d.tick();
    assert_eq!(d.get(), 42);
}

#[test]
fn readings_never_decrease() {
    let mut c = TickCounter::new(());
    let mut last = c.get();
    for _ in 0..500 {
        c.tick();
        let now = c.get();
        assert!(now >= last);
        assert_eq!(now, last + 1);
        last = now;
    }
}

#[test]
fn tick_at_max_wraps_to_zero() {
    let mut c = TickCounter::with_count((), u64::MAX);
    c.tick();
    assert_eq!(c.get(), 0);
    c.tick();
    assert_eq!(c.get(), 1);
}

#[test]
fn read_before_install_is_zero() {
    let mut s: SharedClockState<()> = SharedClockState::new();
    assert_eq!(s.millis(), 0);
    s.on_fire();
    s.on_fire();
    assert_eq!(s.millis(), 0);
}

#[test]
fn install_replaces_previous_counter() {
    let mut s = SharedClockState::new();
    s.install(TickCounter::with_count(1u8, 500));
    assert_eq!(s.millis(), 500);
    s.install(TickCounter::new(2u8));
    assert_eq!(s.millis(), 0);
    s.on_fire();
    assert_eq!(s.millis(), 1);
}

#[test]
fn interleaved_fires_and_reads() {
    // 'f' is a firing, 'r' a read; each read must see the firings before it.
    let events = "rffrfrrfffrfrffffr";
    let mut s = SharedClockState::new();
    s.install(TickCounter::new(()));
    let mut fired: u64 = 0;
    let mut reads = Vec::new();
    for e in events.chars() {
        if e == 'f' {
            s.on_fire();
            fired += 1;
        } else {
            let r = s.millis();
            assert_eq!(r, fired);
            reads.push(r);
        }
    }
    assert_eq!(reads, vec![0, 2, 3, 3, 6, 7, 11]);
}

#[test]
fn delay_ends_at_deadline() {
    let d = Delay::new(100, 10);
    assert!(!d.is_elapsed(100));
    assert!(!d.is_elapsed(109));
    assert!(d.is_elapsed(110));
    assert!(d.is_elapsed(250));
}

#[test]
fn zero_delay_is_over_at_once() {
    let d = Delay::new(7, 0);
    assert!(d.is_elapsed(7));
}

#[test]
fn simulated_sleep_stops_on_the_deadline_tick() {
    let mut s = SharedClockState::new();
    s.install(TickCounter::with_count((), 1234));
    let d = Delay::new(s.millis(), 10);
    let mut spins: u32 = 0;
    while !d.is_elapsed(s.millis()) {
        s.on_fire();
        spins += 1;
    }
    assert_eq!(s.millis(), 1244);
    assert_eq!(spins, 10);
}

#[test]
fn delay_across_wraparound() {
    let d = Delay::new(u64::MAX - 2, 5);
    assert!(!d.is_elapsed(u64::MAX));
    assert!(!d.is_elapsed(0));
    assert!(!d.is_elapsed(1));
    assert!(d.is_elapsed(2));
    assert!(d.is_elapsed(3));
}

#[test]
fn sleep_across_wraparound_counts_ticks() {
    let mut c = TickCounter::with_count((), u64::MAX - 3);
    let d = Delay::new(c.get(), 6);
    let mut spins: u32 = 0;
    while !d.is_elapsed(c.get()) {
        c.tick();
        spins += 1;
    }
    assert_eq!(spins, 6);
    assert_eq!(c.get(), 2);
}
