use bucketboss::error::RateLimitError;
use bucketboss::leaky_state::LeakyState;
use bucketboss::rate::Rate;

fn refused(requested: u32, available: u32, retry_after_ms: u64) -> Result<(), RateLimitError> {
    Err(RateLimitError::RateLimitExceeded { requested, available, retry_after_ms })
}

#[test]
fn a_new_leaky_state_is_empty() {
    let s = LeakyState::new(Rate::per_second(10), Some(5), 40);
    assert_eq!(s.capacity(), 5);
    assert_eq!(s.rate(), Rate::per_second(10));
    assert_eq!(s.level(), 0);
    assert_eq!(s.next_allowed(), 40);
    assert_eq!(s.headroom(), 5);
}

#[test]
fn leaky_burst_size_defaults_to_one() {
    let mut s = LeakyState::new(Rate::per_second(10), None, 0);
    assert_eq!(s.capacity(), 1);
    assert_eq!(s.try_acquire(1, 0), Ok(()));
    assert_eq!(s.try_acquire(1, 0), refused(1, 0, 100));
}

#[test]
fn leaky_state_burst_exhaustion() {
    let mut s = LeakyState::new(Rate::per_second(10), Some(5), 0);
    for _ in 0..5 {
        assert_eq!(s.try_acquire(1, 0), Ok(()));
    }
    assert_eq!(s.try_acquire(1, 0), refused(1, 0, 100));
    // 100 ms free exactly one slot.
    let mut later = s;
    assert_eq!(later.available(100), 1);
    assert_eq!(s.try_acquire(1, 100), Ok(()));
    assert_eq!(s.try_acquire(1, 100), refused(1, 0, 100));
}

#[test]
fn leaky_request_for_nothing_changes_nothing() {
    let mut s = LeakyState::from_parts(5, Rate::per_second(10), 5, 0);
    assert_eq!(s.try_acquire(0, 1000), Ok(()));
    // Not even the drain that is due has been made.
    assert_eq!(s.level(), 5);
    assert_eq!(s.next_allowed(), 0);
    assert_eq!(s.available(1000), 5);
}

#[test]
fn leaky_request_beyond_capacity_is_refused_outright() {
    let mut empty = LeakyState::new(Rate::per_second(10), Some(5), 0);
    assert_eq!(empty.try_acquire(6, 0), refused(6, 5, 0));
    let mut full = LeakyState::from_parts(5, Rate::per_second(10), 5, 0);
    assert_eq!(full.try_acquire(6, 0), refused(6, 5, 0));
    assert_eq!(full.try_acquire(u32::MAX, 1000), refused(u32::MAX, 5, 0));
    // Refused without a drain.
    assert_eq!(full.level(), 5);
    assert_eq!(full.next_allowed(), 0);
}

#[test]
fn leaky_refusal_tells_the_room_and_how_long_the_excess_takes() {
    let mut s = LeakyState::from_parts(5, Rate::per_second(3), 4, 0);
    assert_eq!(s.try_acquire(5, 0), refused(5, 1, 1334));
    assert_eq!(s.try_acquire(3, 0), refused(3, 1, 667));
    assert_eq!(s.try_acquire(2, 0), refused(2, 1, 334));
    assert_eq!(s.level(), 4);
    assert_eq!(s.try_acquire(1, 0), Ok(()));
    assert_eq!(s.level(), 5);
}

#[test]
fn leaky_partial_drain_keeps_the_time_left_over() {
    let mut s = LeakyState::from_parts(5, Rate::per_second(10), 5, 0);
    s.drain(250);
    assert_eq!(s.level(), 3);
    assert_eq!(s.next_allowed(), 200);
    // The 50 ms left over at 250 count: at 300 another unit has drained.
    s.drain(300);
    assert_eq!(s.level(), 2);
    assert_eq!(s.next_allowed(), 300);
    s.drain(399);
    assert_eq!(s.level(), 2);
    assert_eq!(s.next_allowed(), 300);
}

#[test]
fn leaky_full_drain_starts_the_next_interval_one_span_later() {
    let mut s = LeakyState::from_parts(5, Rate::per_second(10), 2, 0);
    s.drain(1000);
    assert_eq!(s.level(), 0);
    assert_eq!(s.next_allowed(), 1100);
    assert_eq!(s.try_acquire(1, 1000), Ok(()));
    assert_eq!(s.level(), 1);
    s.drain(1150);
    assert_eq!(s.level(), 1);
    s.drain(1200);
    assert_eq!(s.level(), 0);
    assert_eq!(s.next_allowed(), 1300);
    let mut s = LeakyState::from_parts(5, Rate::per_second(3), 1, 0);
    s.drain(334);
    assert_eq!(s.level(), 0);
    assert_eq!(s.next_allowed(), 334 + 333);
}

#[test]
fn leaky_full_drain_at_the_end_of_time() {
    let mut s = LeakyState::from_parts(5, Rate::per_second(10), 2, 0);
    s.drain(u64::MAX - 50);
    assert_eq!(s.level(), 0);
    assert_eq!(s.next_allowed(), u64::MAX);
}

#[test]
fn leaky_empty_bucket_does_not_drain() {
    let mut s = LeakyState::new(Rate::per_second(10), Some(5), 0);
    s.drain(1_000_000);
    assert_eq!(s.level(), 0);
    assert_eq!(s.next_allowed(), 0);
}

#[test]
fn leaky_drain_takes_an_earlier_time_as_no_time() {
    let mut s = LeakyState::from_parts(5, Rate::per_second(10), 3, 1000);
    s.drain(0);
    assert_eq!(s.level(), 3);
    assert_eq!(s.next_allowed(), 1000);
    assert_eq!(s.available(1099), 2);
    assert_eq!(s.available(1100), 3);
}

#[test]
fn leaky_available_never_exceeds_capacity() {
    let mut s = LeakyState::new(Rate::per_second(1000), Some(7), 0);
    let mut now = 0;
    for step in [0u64, 1, 5, 1000, 3, 0, 50_000] {
        now += step;
        assert!(s.available(now) <= s.capacity());
        let _ = s.try_acquire(3, now);
        assert!(s.available(now) <= s.capacity());
    }
    // Even where the backlog is above the capacity.
    let mut s = LeakyState::from_parts(5, Rate::per_second(10), 9, 0);
    assert_eq!(s.available(0), 0);
    assert_eq!(s.available(100), 0);
    assert_eq!(s.available(500), 1);
}

#[test]
fn leaky_available_read_twice_is_the_same_at_whole_spans() {
    let mut s = LeakyState::from_parts(10, Rate::per_second(10), 10, 0);
    let first = s.available(457);
    assert_eq!(first, 4);
    assert_eq!(s.available(457), first);
    assert_eq!(s.available(457), first);
    assert_eq!(s.next_allowed(), 400);
}

#[test]
fn leaky_second_read_can_find_more_where_spans_are_not_whole() {
    // At 700 units per second a unit's span is 1000/700 ms. After 4 ms two
    // units have drained, and the interval moves on by the 2 whole ms of
    // their span; the 2 ms left over are then worth a third unit.
    let mut s = LeakyState::from_parts(5, Rate::per_second(700), 5, 0);
    assert_eq!(s.available(4), 2);
    assert_eq!(s.next_allowed(), 2);
    assert_eq!(s.available(4), 3);
    assert_eq!(s.next_allowed(), 3);
    assert_eq!(s.available(4), 3);
}

#[test]
fn leaky_add_does_not_drain() {
    let mut s = LeakyState::from_parts(5, Rate::per_second(10), 4, 0);
    assert_eq!(s.add(2), refused(2, 1, 100));
    assert_eq!(s.add(6), refused(6, 5, 0));
    assert_eq!(s.add(0), Ok(()));
    assert_eq!(s.add(1), Ok(()));
    assert_eq!(s.level(), 5);
    assert_eq!(s.next_allowed(), 0);
}

#[test]
fn leaky_time_until_next_unit() {
    let mut s = LeakyState::new(Rate::per_second(10), Some(5), 0);
    assert_eq!(s.time_until_next_unit(0), None);
    assert_eq!(s.try_acquire(4, 0), Ok(()));
    assert_eq!(s.time_until_next_unit(0), None);
    assert_eq!(s.try_acquire(1, 0), Ok(()));
    assert_eq!(s.time_until_next_unit(0), Some(100));
    assert_eq!(s.time_until_next_unit(40), Some(60));
    assert_eq!(s.time_until_next_unit(100), None);
    // Reading the time does not drain the state.
    assert_eq!(s.level(), 5);
    assert_eq!(s.next_allowed(), 0);
    let s = LeakyState::from_parts(2, Rate::per_second(3), 2, 1000);
    assert_eq!(s.time_until_next_unit(1000), Some(334));
    assert_eq!(s.time_until_next_unit(900), Some(434));
}

#[test]
fn leaky_time_until_next_unit_at_the_end_of_time() {
    let s = LeakyState::from_parts(1, Rate::from_micro(1), 1, u64::MAX);
    assert_eq!(s.time_until_next_unit(u64::MAX), Some(1_000_000_000));
    assert_eq!(s.time_until_next_unit(2_000_000_000), Some(u64::MAX - 1_000_000_000));
    assert_eq!(s.time_until_next_unit(0), Some(u64::MAX));
}

#[test]
fn leaky_update_config_refuses_zero() {
    let mut s = LeakyState::from_parts(5, Rate::per_second(10), 5, 0);
    let r = s.update_config(0, Rate::per_second(1), 1000);
    assert_eq!(r, Err(RateLimitError::InvalidConfiguration { reason: "capacity must be greater than 0" }));
    let r = s.update_config(3, Rate::from_micro(0), 1000);
    assert_eq!(
        r,
        Err(RateLimitError::InvalidConfiguration { reason: "requests_per_second must be positive" })
    );
    // Nothing has changed, not even by a drain.
    assert_eq!(s.capacity(), 5);
    assert_eq!(s.rate(), Rate::per_second(10));
    assert_eq!(s.level(), 5);
    assert_eq!(s.next_allowed(), 0);
}

#[test]
fn leaky_update_config_caps_the_backlog() {
    let mut s = LeakyState::from_parts(5, Rate::per_second(10), 5, 0);
    assert_eq!(s.update_config(3, Rate::per_second(2), 0), Ok(()));
    assert_eq!(s.capacity(), 3);
    assert_eq!(s.rate(), Rate::per_second(2));
    assert_eq!(s.level(), 3);
    assert_eq!(s.next_allowed(), 0);
    assert_eq!(s.available(0), 0);
    assert_eq!(s.available(500), 1);
}

#[test]
fn leaky_update_config_moves_a_past_interval_up_to_now() {
    let mut s = LeakyState::from_parts(5, Rate::per_second(10), 5, 0);
    assert_eq!(s.update_config(5, Rate::per_second(1), 50), Ok(()));
    assert_eq!(s.level(), 5);
    assert_eq!(s.next_allowed(), 50);
    assert_eq!(s.available(1049), 0);
    assert_eq!(s.available(1050), 1);
}

#[test]
fn leaky_update_config_keeps_an_interval_that_starts_later() {
    let mut s = LeakyState::from_parts(5, Rate::per_second(10), 2, 900);
    assert_eq!(s.update_config(5, Rate::per_second(1), 50), Ok(()));
    assert_eq!(s.level(), 2);
    assert_eq!(s.next_allowed(), 900);
}

#[test]
fn leaky_update_config_starts_an_empty_bucket_now() {
    let mut s = LeakyState::from_parts(5, Rate::per_second(10), 0, 900);
    assert_eq!(s.update_config(5, Rate::per_second(1), 50), Ok(()));
    assert_eq!(s.level(), 0);
    assert_eq!(s.next_allowed(), 50);
    // A backlog that drains in full under the old rate counts as empty.
    let mut s = LeakyState::from_parts(5, Rate::per_second(10), 2, 0);
    assert_eq!(s.update_config(8, Rate::per_second(1), 1000), Ok(()));
    assert_eq!(s.level(), 0);
    assert_eq!(s.next_allowed(), 1000);
    assert_eq!(s.available(1000), 8);
}

#[test]
fn leaky_update_config_settles_under_the_old_rate_only() {
    // 150 ms at the old rate of 10 per second drain one unit and leave 50 ms
    // on account; under the new rate of 100 per second those 50 ms would be
    // worth five units, but the interval restarts at the reconfiguration.
    let mut s = LeakyState::from_parts(10, Rate::per_second(10), 10, 0);
    assert_eq!(s.update_config(10, Rate::per_second(100), 150), Ok(()));
    assert_eq!(s.level(), 9);
    assert_eq!(s.next_allowed(), 150);
    assert_eq!(s.available(150), 1);
    assert_eq!(s.available(160), 2);
}

#[test]
fn leaky_retry_after_suffices() {
    let mut s = LeakyState::from_parts(10, Rate::per_second(3), 9, 0);
    let wait = match s.try_acquire(8, 200) {
        Err(RateLimitError::RateLimitExceeded { retry_after_ms, .. }) => retry_after_ms,
        other => panic!("{other:?}"),
    };
    assert_eq!(wait, 2334);
    assert_eq!(s.try_acquire(8, 200 + wait), Ok(()));
}
