//! The leaky bucket, shared and lock-free.
//!
//! A [`LeakyBucket`] keeps the numbers of a [`LeakyState`] in atomic cells, one
//! for each, so that any number of callers can use one bucket through a
//! shared reference. Every operation reads the cells into a state, computes
//! the next state with the sequential transitions of [`LeakyState`], and
//! publishes it; the backlog changes by compare-and-swap only, so that no
//! unit is counted twice and none is lost.
//!
//! The cells are independent. What another caller stores between two reads is
//! not known, so the contracts here state only what holds whatever the cells
//! held; what an operation computes from a given state is stated, exactly, at
//! [`LeakyState`].

use crate::clock::{Clock, SystemClock};
use crate::error::RateLimitError;
use crate::leaky_state::{
    burst_reason, leaky_rate_reason, lemma_leaky_available_is_stable,
    lemma_leaky_whole_spans_never_slip, LeakyState, LeakyView,
};
use crate::rate::{Rate, TICKS_PER_UNIT};
use crate::token_bucket::RETRY_LIMIT;
use crate::traits::{RateLimiter, ReconfigurableRateLimiter, WithClock};
use std::sync::atomic::{AtomicU32, AtomicU64, Ordering};
use vstd::prelude::*;

verus! {

/// A leaky bucket that callers share by reference.
#[derive(Debug)]
pub struct LeakyBucket<C = SystemClock> {
    clock: C,
    capacity: AtomicU32,
    rate: AtomicU64,
    next_allowed: AtomicU64,
    level: AtomicU32,
}

impl LeakyBucket<SystemClock> {
    /// An empty bucket that drains at `requests_per_second` and lets
    /// `burst_size` units be outstanding (one, where no burst size is given),
    /// on the system's clock.
    pub fn new(requests_per_second: Rate, burst_size: Option<u32>) -> (bucket: Self)
        requires
            requests_per_second@ > 0,
            burst_size != Some(0u32),
        ensures
            bucket.bound_clock() == SystemClock,
    {
        LeakyBucket::with_clock(requests_per_second, burst_size, SystemClock)
    }

    /// An empty bucket that admits one request per second, with no burst.
    pub fn one_per_second() -> (bucket: Self)
        ensures
            bucket.bound_clock() == SystemClock,
    {
        LeakyBucket::new(Rate::per_second(1), None)
    }
}

impl<C: Clock> LeakyBucket<C> {
    /// An empty bucket that drains at `requests_per_second` and lets
    /// `burst_size` units be outstanding (one, where no burst size is given),
    /// on the given clock.
    pub fn with_clock(requests_per_second: Rate, burst_size: Option<u32>, clock: C) -> (bucket:
        Self)
        requires
            requests_per_second@ > 0,
            burst_size != Some(0u32),
        ensures
            bucket.bound_clock() == clock,
    {
        let now = clock.now();
        let start = LeakyState::new(requests_per_second, burst_size, now);
        LeakyBucket {
            clock,
            capacity: AtomicU32::new(start.capacity()),
            rate: AtomicU64::new(start.rate().micro()),
            next_allowed: AtomicU64::new(start.next_allowed()),
            level: AtomicU32::new(start.level()),
        }
    }

    /// Reads the cells into a state.
    fn load(&self) -> (seen: LeakyState) {
        let level = self.level.load(Ordering::Relaxed);
        let next_allowed = self.next_allowed.load(Ordering::Acquire);
        let rate = Rate::from_micro(self.rate.load(Ordering::Acquire));
        let capacity = self.capacity.load(Ordering::Acquire);
        LeakyState::from_parts(capacity, rate, level, next_allowed)
    }

    /// Replaces the backlog `seen` by `next`, unless the cell holds another
    /// backlog by now. Tells whether it did.
    fn swap_level(&self, seen: u32, next: u32) -> (swapped: bool) {
        self.level.compare_exchange(seen, next, Ordering::AcqRel, Ordering::Relaxed).is_ok()
    }

    /// Stores a backlog.
    fn store_level(&self, level: u32) {
        self.level.store(level, Ordering::Release);
    }

    /// Stores the start of the running interval.
    fn store_next_allowed(&self, next_allowed: u64) {
        self.next_allowed.store(next_allowed, Ordering::Release);
    }

    /// Drains the bucket at `now`: reads the cells, drains, and, where the
    /// drain changed the backlog, replaces the backlog that was read by
    /// compare-and-swap and then stores the new start of the interval. If
    /// another caller changed the backlog in between, it starts over; after
    /// [`RETRY_LIMIT`] such failures the drained state is returned
    /// unpublished. Returns the drained state: the drain at `now` of the
    /// state that was read last. Where a unit's span is a whole number of
    /// milliseconds, a second drain at `now` leaves that state as it is.
    fn update_state(&self, now: u64) -> (fresh: LeakyState)
        ensures
            exists|seen: LeakyView| fresh@ == seen.drained(now as nat),
            fresh@.rate > 0 && (TICKS_PER_UNIT as nat) % fresh@.rate == 0 ==> fresh@.drained(
                now as nat,
            ) == fresh@,
    {
        let mut fresh = self.load();
        let mut attempts: u64 = 0;
        loop
            invariant
                attempts <= RETRY_LIMIT,
            decreases RETRY_LIMIT - attempts,
        {
            let seen = fresh;
            fresh.drain(now);
            proof {
                assert(fresh@ == seen@.drained(now as nat));
                if fresh@.rate > 0 && (TICKS_PER_UNIT as nat) % fresh@.rate == 0 {
                    lemma_leaky_whole_spans_never_slip(seen@, now as nat);
                    lemma_leaky_available_is_stable(seen@, now as nat);
                }
            }
            if fresh.level() == seen.level() || attempts == RETRY_LIMIT {
                return fresh;
            }
            if self.swap_level(seen.level(), fresh.level()) {
                self.store_next_allowed(fresh.next_allowed());
                return fresh;
            }
            attempts = attempts + 1;
            fresh = self.load();
        }
    }

    /// Stores a new capacity and rate.
    fn set_rate(&self, capacity: u32, requests_per_second: Rate) {
        self.capacity.store(capacity, Ordering::Release);
        self.rate.store(requests_per_second.micro(), Ordering::Release);
    }
}

impl<C: Clock> RateLimiter for LeakyBucket<C> {
    /// Requests `tokens` units now.
    ///
    /// A request for nothing is granted without a look at the bucket. A
    /// request for more than the capacity is refused outright, with no time
    /// to wait. Any other request drains the bucket and is refused where the
    /// backlog then leaves too little room, as [`LeakyState::add`] tells.
    /// Where there is room, the new backlog replaces the one that was read,
    /// by compare-and-swap; if another caller changed the backlog in between,
    /// the request starts over. A request that has started over
    /// [`RETRY_LIMIT`] times is refused with no time to wait.
    fn try_acquire(&self, tokens: u32) -> (r: Result<(), RateLimitError>)
        ensures
            tokens == 0 ==> r is Ok,
            r matches Err(e) ==> e matches RateLimitError::RateLimitExceeded {
                requested,
                available,
                retry_after_ms,
            } && requested == tokens && (available < tokens || retry_after_ms == 0),
    {
        if tokens == 0 {
            return Ok(());
        }
        let mut oversize = self.load();
        if tokens > oversize.capacity() {
            return oversize.add(tokens);
        }
        let mut room: u32 = 0;
        let mut attempts: u64 = 0;
        while attempts < RETRY_LIMIT
            invariant
                tokens > 0,
            decreases RETRY_LIMIT - attempts,
        {
            let now = self.clock.now();
            let mut state = self.update_state(now);
            let seen = state.level();
            room = state.headroom();
            match state.add(tokens) {
                Err(refusal) => {
                    return Err(refusal);
                },
                Ok(()) => {
                    if self.swap_level(seen, state.level()) {
                        return Ok(());
                    }
                },
            }
            attempts = attempts + 1;
        }
        Err(RateLimitError::rate_limit_exceeded(tokens, room, 0))
    }

    /// Drains the bucket and returns the units that it can still take on.
    fn available_tokens(&self) -> (units: u32) {
        let now = self.clock.now();
        self.update_state(now).headroom()
    }

    /// The capacity that the bucket is configured with.
    fn capacity(&self) -> (capacity: u32) {
        self.capacity.load(Ordering::Acquire)
    }

    /// The rate that the bucket is configured with.
    fn rate_per_second(&self) -> (rate: Rate) {
        Rate::from_micro(self.rate.load(Ordering::Acquire))
    }

    /// Milliseconds until a unit can be requested, where none can be now, as
    /// [`LeakyState::time_until_next_unit`] tells of the cells as read. A
    /// wait that is told is never zero.
    fn time_until_next_token_ms(&self) -> (ms: Option<u64>)
        ensures
            ms matches Some(wait) ==> wait > 0,
    {
        let now = self.clock.now();
        self.load().time_until_next_unit(now)
    }
}

impl<C: Clock> ReconfigurableRateLimiter for LeakyBucket<C> {
    /// Gives the bucket a new capacity and rate.
    ///
    /// A capacity or a rate of zero is refused before anything is read or
    /// stored. Otherwise the bucket is drained under the old capacity and
    /// rate, the new ones are stored, the start of the running interval is
    /// moved up to now where [`LeakyState::set_rate`] says so, and the
    /// backlog is capped at the new capacity.
    fn update_config(&self, capacity: u32, requests_per_second: Rate) -> (r: Result<
        (),
        RateLimitError,
    >)
        ensures
            r is Ok <==> capacity > 0 && requests_per_second@ > 0,
            capacity == 0 ==> (r matches Err(RateLimitError::InvalidConfiguration { reason })
                && reason@ == burst_reason()),
            capacity > 0 && requests_per_second@ == 0 ==> (r matches Err(
                RateLimitError::InvalidConfiguration { reason },
            ) && reason@ == leaky_rate_reason()),
    {
        if capacity == 0 {
            return Err(RateLimitError::invalid_config("capacity must be greater than 0"));
        }
        if !requests_per_second.is_positive() {
            return Err(RateLimitError::invalid_config("requests_per_second must be positive"));
        }
        let now = self.clock.now();
        let mut state = self.update_state(now);
        let drained = state;
        state.set_rate(capacity, requests_per_second, now);
        self.set_rate(capacity, requests_per_second);
        if state.next_allowed() != drained.next_allowed() {
            self.store_next_allowed(state.next_allowed());
        }
        if state.level() != drained.level() {
            self.store_level(state.level());
        }
        Ok(())
    }
}

impl<C> WithClock<C> for LeakyBucket<C> {
    /// The same bucket, with its cells as they are, on another clock.
    fn with_clock(self, clock: C) -> (bucket: Self)
        ensures
            bucket.bound_clock() == clock,
            bucket.shares_cells(&self),
    {
        LeakyBucket {
            clock,
            capacity: self.capacity,
            rate: self.rate,
            next_allowed: self.next_allowed,
            level: self.level,
        }
    }
}

impl<C: Clock + Default> Default for LeakyBucket<C> {
    /// A bucket that admits one request per second, with no burst.
    fn default() -> (bucket: Self) {
        LeakyBucket::with_clock(Rate::per_second(1), Some(1), C::default())
    }
}

impl<C> LeakyBucket<C> {
    /// The clock that the bucket reads the time from.
    pub closed spec fn bound_clock(&self) -> C {
        self.clock
    }

    /// Whether the two buckets keep their numbers in the same cells, so that
    /// what is stored through one is read through the other.
    pub closed spec fn shares_cells(&self, other: &Self) -> bool {
        self.capacity == other.capacity
            && self.rate == other.rate
            && self.next_allowed == other.next_allowed
            && self.level == other.level
    }
}

} // verus!
