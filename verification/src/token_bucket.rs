//! The token bucket, shared and lock-free.
//!
//! A [`TokenBucket`] keeps the numbers of a [`TokenState`] in atomic cells, one
//! for each, so that any number of callers can use one bucket through a
//! shared reference. Every operation reads the cells into a state, computes
//! the next state with the sequential transitions of [`TokenState`], and
//! publishes it; units are taken with a compare-and-swap on the unit count, so
//! that no unit is granted twice.
//!
//! The cells are independent. What another caller stores between two reads is
//! not known, so the contracts here state only what holds whatever the cells
//! held; what an operation computes from a given state is stated, exactly, at
//! [`TokenState`].

use crate::clock::{Clock, SystemClock};
use crate::error::RateLimitError;
use crate::rate::Rate;
use crate::token_state::{capacity_reason, token_rate_reason, TokenState};
use crate::traits::{RateLimiter, ReconfigurableRateLimiter, WithClock};
use std::sync::atomic::{AtomicU32, AtomicU64, Ordering};
use vstd::prelude::*;

verus! {

/// How often an operation starts over because another caller changed the
/// unit count between its read and its compare-and-swap. Each failure means
/// that another caller got through, so the limit is out of reach in
/// practice; it makes the retry loop one that ends.
pub const RETRY_LIMIT: u64 = 0xffff_ffff_ffff_ffff;

/// A token bucket that callers share by reference.
#[derive(Debug)]
pub struct TokenBucket<C = SystemClock> {
    clock: C,
    capacity: AtomicU32,
    rate: AtomicU64,
    tokens: AtomicU32,
    last_update: AtomicU64,
}

impl TokenBucket<SystemClock> {
    /// A full bucket of `capacity` units that refills at `tokens_per_second`,
    /// on the system's clock.
    pub fn new(capacity: u32, tokens_per_second: Rate) -> (bucket: Self)
        requires
            capacity > 0,
            tokens_per_second@ > 0,
        ensures
            bucket.bound_clock() == SystemClock,
    {
        TokenBucket::with_clock(capacity, tokens_per_second, SystemClock)
    }
}

impl<C: Clock> TokenBucket<C> {
    /// A full bucket of `capacity` units that refills at `tokens_per_second`,
    /// on the given clock.
    pub fn with_clock(capacity: u32, tokens_per_second: Rate, clock: C) -> (bucket: Self)
        requires
            capacity > 0,
            tokens_per_second@ > 0,
        ensures
            bucket.bound_clock() == clock,
    {
        let now = clock.now();
        let start = TokenState::new(capacity, tokens_per_second, now);
        TokenBucket {
            clock,
            capacity: AtomicU32::new(start.capacity()),
            rate: AtomicU64::new(start.rate().micro()),
            tokens: AtomicU32::new(start.tokens()),
            last_update: AtomicU64::new(start.last_update()),
        }
    }

    /// Reads the cells into a state.
    fn load(&self) -> (seen: TokenState) {
        let last_update = self.last_update.load(Ordering::Acquire);
        let rate = Rate::from_micro(self.rate.load(Ordering::Acquire));
        let tokens = self.tokens.load(Ordering::Relaxed);
        let capacity = self.capacity.load(Ordering::Acquire);
        TokenState::from_parts(capacity, rate, tokens, last_update)
    }

    /// Stores the update time and the unit count of a refilled state.
    fn store_refill(&self, fresh: &TokenState) {
        self.last_update.store(fresh.last_update(), Ordering::Release);
        self.tokens.store(fresh.tokens(), Ordering::Release);
    }

    /// Stores a unit count.
    fn store_tokens(&self, tokens: u32) {
        self.tokens.store(tokens, Ordering::Release);
    }

    /// Replaces the unit count `seen` by `left`, unless the cell holds
    /// another count by now. Tells whether it did.
    fn swap_tokens(&self, seen: u32, left: u32) -> (swapped: bool) {
        self.tokens.compare_exchange(seen, left, Ordering::AcqRel, Ordering::Relaxed).is_ok()
    }

    /// Brings the bucket up to date at `now`: reads the cells, refills, and
    /// stores the unit count and the update time where the refill changed
    /// them. Returns the state as stored, which a second refill at `now`
    /// leaves as it is.
    fn update_state(&self, now: u64) -> (fresh: TokenState)
        ensures
            fresh@.refilled(now as nat) == fresh@,
    {
        let seen = self.load();
        let mut fresh = seen;
        fresh.refill(now);
        proof {
            crate::token_state::lemma_token_available_is_stable(seen@, now as nat);
        }
        if fresh.last_update() != seen.last_update() || fresh.tokens() != seen.tokens() {
            self.store_refill(&fresh);
        }
        fresh
    }

    /// Stores a new capacity and rate.
    fn set_rate(&self, capacity: u32, tokens_per_second: Rate) {
        self.capacity.store(capacity, Ordering::Release);
        self.rate.store(tokens_per_second.micro(), Ordering::Release);
    }
}

impl<C: Clock> RateLimiter for TokenBucket<C> {
    /// Requests `tokens` units now.
    ///
    /// A request for nothing is granted without a look at the bucket. Any
    /// other request brings the bucket up to date and is refused where the
    /// bucket then holds fewer units, as [`TokenState::take`] tells. Where
    /// it holds enough, the new count replaces the one that was read, by
    /// compare-and-swap; if another caller changed the count in between, the
    /// request starts over. A request that has started over [`RETRY_LIMIT`]
    /// times is refused with no time to wait.
    fn try_acquire(&self, tokens: u32) -> (r: Result<(), RateLimitError>)
        ensures
            tokens == 0 ==> r is Ok,
            r matches Err(e) ==> e matches RateLimitError::RateLimitExceeded {
                requested,
                available,
                retry_after_ms,
            } && requested == tokens && (available < tokens || retry_after_ms == 0),
    {
        if tokens == 0 {
            return Ok(());
        }
        let mut seen: u32 = 0;
        let mut attempts: u64 = 0;
        while attempts < RETRY_LIMIT
            invariant
                tokens > 0,
            decreases RETRY_LIMIT - attempts,
        {
            let now = self.clock.now();
            let mut state = self.update_state(now);
            seen = state.tokens();
            match state.take(tokens) {
                Err(refusal) => {
                    return Err(refusal);
                },
                Ok(()) => {
                    if self.swap_tokens(seen, state.tokens()) {
                        return Ok(());
                    }
                },
            }
            attempts = attempts + 1;
        }
        Err(RateLimitError::rate_limit_exceeded(tokens, seen, 0))
    }

    /// Brings the bucket up to date and returns the units that it holds.
    fn available_tokens(&self) -> (units: u32) {
        let now = self.clock.now();
        self.update_state(now).tokens()
    }

    /// The capacity that the bucket is configured with.
    fn capacity(&self) -> (capacity: u32) {
        self.capacity.load(Ordering::Acquire)
    }

    /// The rate that the bucket is configured with.
    fn rate_per_second(&self) -> (rate: Rate) {
        Rate::from_micro(self.rate.load(Ordering::Acquire))
    }

    /// Milliseconds until a unit can be taken, where none can be now, as
    /// [`TokenState::time_until_next_unit`] tells of the cells as read. A
    /// wait that is told is never zero.
    fn time_until_next_token_ms(&self) -> (ms: Option<u64>)
        ensures
            ms matches Some(wait) ==> wait > 0,
    {
        let now = self.clock.now();
        self.load().time_until_next_unit(now)
    }
}

impl<C: Clock> ReconfigurableRateLimiter for TokenBucket<C> {
    /// Gives the bucket a new capacity and rate.
    ///
    /// A capacity or a rate of zero is refused before anything is read or
    /// stored. Otherwise the bucket is brought up to date under the old
    /// capacity and rate, the new ones are stored, and the unit count is
    /// capped at the new capacity.
    fn update_config(&self, capacity: u32, tokens_per_second: Rate) -> (r: Result<
        (),
        RateLimitError,
    >)
        ensures
            r is Ok <==> capacity > 0 && tokens_per_second@ > 0,
            capacity == 0 ==> (r matches Err(RateLimitError::InvalidConfiguration { reason })
                && reason@ == capacity_reason()),
            capacity > 0 && tokens_per_second@ == 0 ==> (r matches Err(
                RateLimitError::InvalidConfiguration { reason },
            ) && reason@ == token_rate_reason()),
    {
        if capacity == 0 {
            return Err(RateLimitError::invalid_config("capacity must be greater than 0"));
        }
        if !tokens_per_second.is_positive() {
            return Err(RateLimitError::invalid_config("tokens_per_second must be positive"));
        }
        let now = self.clock.now();
        let mut state = self.update_state(now);
        let held = state.tokens();
        state.set_rate(capacity, tokens_per_second);
        self.set_rate(capacity, tokens_per_second);
        if state.tokens() != held {
            self.store_tokens(state.tokens());
        }
        Ok(())
    }
}

impl<C> WithClock<C> for TokenBucket<C> {
    /// The same bucket, with its cells as they are, on another clock.
    fn with_clock(self, clock: C) -> (bucket: Self)
        ensures
            bucket.bound_clock() == clock,
            bucket.shares_cells(&self),
    {
        TokenBucket {
            clock,
            capacity: self.capacity,
            rate: self.rate,
            tokens: self.tokens,
            last_update: self.last_update,
        }
    }
}

impl<C: Clock + Default> Default for TokenBucket<C> {
    /// A bucket of one unit that refills at one unit per second.
    fn default() -> (bucket: Self) {
        TokenBucket::with_clock(1, Rate::per_second(1), C::default())
    }
}

impl<C> TokenBucket<C> {
    /// The clock that the bucket reads the time from.
    pub closed spec fn bound_clock(&self) -> C {
        self.clock
    }

    /// Whether the two buckets keep their numbers in the same cells, so that
    /// what is stored through one is read through the other.
    pub closed spec fn shares_cells(&self, other: &Self) -> bool {
        self.capacity == other.capacity
            && self.rate == other.rate
            && self.tokens == other.tokens
            && self.last_update == other.last_update
    }
}

} // verus!
