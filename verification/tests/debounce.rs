use arch_updates_rs::debounce::{
    Debouncer, DEBOUNCE_INTERVAL_MS, DEBOUNCE_INTERVAL_NANOS, NANOS_PER_MILLI,
};

const MS: u128 = 1_000_000;

#[test]
fn debounce_interval_is_one_second() {
    assert_eq!(DEBOUNCE_INTERVAL_MS, 1000);
    assert_eq!(NANOS_PER_MILLI, 1_000_000);
    assert_eq!(DEBOUNCE_INTERVAL_NANOS, 1_000_000_000);
}

#[test]
fn fires_then_suppresses_then_fires_again() {
    let interval = 1000 * MS;
    for first in [0, 10 * MS, 1000 * MS, 123_456 * MS] {
        let mut debouncer = Debouncer::new(interval);
        assert!(debouncer.try_fire(first));
        assert!(!debouncer.try_fire(first + interval / 2));
        assert!(debouncer.try_fire(first + interval));
    }
}

#[test]
fn first_signal_fires_however_soon_it_comes() {
    let mut debouncer = Debouncer::new(1000 * MS);
    assert!(debouncer.try_fire(0));
    let mut other = Debouncer::new(u128::MAX);
    assert!(other.try_fire(10 * MS));
}

#[test]
fn signals_within_the_interval_are_suppressed() {
    let mut debouncer = Debouncer::new(1000 * MS);
    assert!(debouncer.try_fire(10 * MS));
    assert!(!debouncer.try_fire(10 * MS));
    assert!(!debouncer.try_fire(1010 * MS - 1));
    assert!(debouncer.try_fire(1010 * MS));
}

#[test]
fn suppressed_signal_does_not_move_the_window() {
    let mut debouncer = Debouncer::new(1000 * MS);
    assert!(debouncer.try_fire(5000 * MS));
    assert!(!debouncer.try_fire(5900 * MS));
    assert!(!debouncer.try_fire(5999 * MS));
    assert!(debouncer.try_fire(6000 * MS));
    assert!(!debouncer.try_fire(6999 * MS));
}

#[test]
fn zero_interval_lets_every_signal_through() {
    let mut debouncer = Debouncer::new(0);
    assert!(debouncer.try_fire(0));
    assert!(debouncer.try_fire(0));
    assert!(debouncer.try_fire(7));
    assert!(debouncer.try_fire(3));
}

#[test]
fn signal_from_before_the_last_fire_is_suppressed() {
    let mut debouncer = Debouncer::new(1000 * MS);
    assert!(debouncer.try_fire(10_000 * MS));
    assert!(!debouncer.try_fire(2000 * MS));
    assert!(!debouncer.try_fire(10_999 * MS));
    assert!(debouncer.try_fire(11_000 * MS));
}

#[test]
fn largest_times_do_not_overflow() {
    let mut debouncer = Debouncer::new(u128::MAX);
    assert!(debouncer.try_fire(0));
    assert!(!debouncer.try_fire(u128::MAX - 1));
    assert!(debouncer.try_fire(u128::MAX));
    assert!(!debouncer.try_fire(u128::MAX));
}

#[test]
fn clock_driven_debouncer_fires_at_once_and_then_is_quiet() {
    let mut debouncer = Debouncer::new(3_600_000 * MS);
    assert!(debouncer.debounce());
    assert!(!debouncer.debounce());
    assert!(!debouncer.debounce());
}

#[test]
fn clock_driven_debouncer_with_zero_interval_always_fires() {
    let mut debouncer = Debouncer::new(0);
    assert!(debouncer.debounce());
    assert!(debouncer.debounce());
}
