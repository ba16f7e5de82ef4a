use bucketboss::clock::{Clock, MockClock, SystemClock};
use std::time::Duration;

#[test]
fn test_mock_clock() {
    let clock = MockClock::new(1000);
    assert_eq!(clock.now(), 1000);

    clock.advance(500);
    assert_eq!(clock.now(), 1500);

    clock.set(2000);
    assert_eq!(clock.now(), 2000);
}

#[test]
fn test_system_clock() {
    let clock = SystemClock;
    let t1 = clock.now();
    let t2 = clock.now();
    assert!(t2 >= t1, "System clock should be monotonic");
}

#[test]
fn system_clock_counts_from_the_unix_epoch() {
    // Later than 2020-01-01 and earlier than 2200-01-01, in milliseconds.
    let now = SystemClock.now();
    assert!(now > 1_577_836_800_000);
    assert!(now < 7_258_118_400_000);
}

#[test]
fn mock_clock_clones_share_one_time() {
    let clock = MockClock::new(7);
    let other = clock.clone();
    clock.advance(5);
    assert_eq!(other.now(), 12);
    other.set(3);
    assert_eq!(clock.now(), 3);
}

#[test]
fn mock_clock_default_starts_at_zero() {
    let clock = MockClock::default();
    assert_eq!(clock.now(), 0);
}

#[test]
fn mock_clock_advance_wraps() {
    let clock = MockClock::new(u64::MAX);
    clock.advance(2);
    assert_eq!(clock.now(), 1);
}

#[test]
fn mock_clock_from_testing_module() {
    let clock = bucketboss::testing::MockClock::new(42);
    assert_eq!(clock.now(), 42);
}

#[test]
fn a_clock_tells_its_time_as_a_duration() {
    let clock = MockClock::new(1500);
    assert_eq!(clock.now_duration(), Duration::from_millis(1500));
    clock.advance(2);
    assert_eq!(clock.now_duration(), Duration::from_micros(1_502_000));
    assert!(SystemClock.now_duration() > Duration::from_secs(1_577_836_800));
}
