//! Time sources for the limiters.
//!
//! A limiter never reads the time itself: it asks the [`Clock`] that it was
//! built with. [`SystemClock`] reads the machine's clock; [`MockClock`] is
//! moved by hand, and every clone of it shows the same time.

use std::sync::atomic::{AtomicU64, Ordering};
use std::sync::Arc;
use std::time::{Duration, SystemTime, SystemTimeError};
use vstd::prelude::*;

verus! {

/// A time source that reads in whole milliseconds since some fixed instant.
///
/// A clock is expected never to go back. Two readings may be equal. Nothing
/// is promised of a reading here: the limiters take a reading that lies
/// before an earlier one as no time passed.
pub trait Clock: Send + Sync + 'static {
    /// The current time, in milliseconds since the clock's own epoch.
    fn now(&self) -> u64;

    /// The current time as a `Duration` since the clock's own epoch.
    fn now_duration(&self) -> Duration {
        Duration::from_millis(self.now())
    }
}

/// `std::time::SystemTime`, a point in time as the operating system tells it.
/// Nothing inside it is visible here.
#[verifier::external_type_specification]
#[verifier::external_body]
pub struct ExSystemTime(SystemTime);

/// `std::time::SystemTimeError`, which `SystemTime::duration_since` returns
/// where the second point in time lies after the first.
#[verifier::external_type_specification]
#[verifier::external_body]
pub struct ExSystemTimeError(SystemTimeError);

/// Calls `std::time::SystemTime::now`. The result is the time of the call, so
/// nothing is stated of it.
#[verifier::external_body]
fn system_time() -> (t: SystemTime) {
    SystemTime::now()
}

/// Hands out the constant `std::time::SystemTime::UNIX_EPOCH`, the instant
/// from which [`SystemClock`] counts.
#[verifier::external_body]
fn unix_epoch() -> (t: SystemTime) {
    SystemTime::UNIX_EPOCH
}

/// `std::time::SystemTime::duration_since` returns the time from `earlier` to
/// `t`, or an error where `earlier` is the later of the two. It does not
/// panic. Nothing is stated of the result.
pub assume_specification[ SystemTime::duration_since ](
    t: &SystemTime,
    earlier: SystemTime,
) -> (r: Result<Duration, SystemTimeError>)
;

/// `std::time::Duration::as_millis` returns the whole milliseconds in a
/// duration. A duration is opaque here, so nothing is stated of the result.
pub assume_specification[ Duration::as_millis ](d: &Duration) -> (ms: u128)
;

/// `std::time::Duration::from_millis` returns the duration of that many
/// milliseconds. It does not panic. A duration is opaque here, so nothing is
/// stated of the result.
pub assume_specification[ Duration::from_millis ](millis: u64) -> (d: Duration)
;

/// The machine's clock, in milliseconds since the Unix epoch.
#[derive(Debug, Default, Clone, Copy)]
pub struct SystemClock;

impl Clock for SystemClock {
    /// The system time in milliseconds since the Unix epoch: zero where the
    /// system time lies before the epoch, and the largest 64-bit number where
    /// the milliseconds do not fit in 64 bits.
    fn now(&self) -> u64 {
        match system_time().duration_since(unix_epoch()) {
            Ok(since) => {
                let ms: u128 = since.as_millis();
                if ms > u64::MAX as u128 {
                    u64::MAX
                } else {
                    ms as u64
                }
            },
            Err(_) => 0,
        }
    }
}

/// A clock that is moved by hand, for tests that must not depend on real
/// time. Clones share one time: moving one moves them all.
#[derive(Debug, Default, Clone)]
pub struct MockClock {
    now: Arc<AtomicU64>,
}

impl MockClock {
    /// A clock that shows `initial_time` milliseconds.
    pub fn new(initial_time: u64) -> MockClock {
        MockClock { now: Arc::new(AtomicU64::new(initial_time)) }
    }

    /// Moves the clock forward by `ms` milliseconds, past the largest 64-bit
    /// number back to zero.
    pub fn advance(&self, ms: u64) {
        let _ = self.now.fetch_add(ms, Ordering::SeqCst);
    }

    /// Sets the clock to `ms` milliseconds.
    pub fn set(&self, ms: u64) {
        self.now.store(ms, Ordering::SeqCst);
    }
}

impl Clock for MockClock {
    fn now(&self) -> u64 {
        self.now.load(Ordering::SeqCst)
    }
}

} // verus!
