//! The operations that the limiters have in common.

use crate::error::RateLimitError;
use crate::rate::Rate;
use std::time::Duration;
use vstd::prelude::*;

verus! {

/// A limiter that admits or refuses requests for units.
///
/// Every operation returns at once. A limiter is shared by reference among
/// its callers, so none of the operations takes it by `&mut`.
pub trait RateLimiter: Send + Sync + 'static {
    /// Requests `tokens` units now: granted, or refused with the reason.
    fn try_acquire(&self, tokens: u32) -> Result<(), RateLimitError>;

    /// The units that can be requested now.
    fn available_tokens(&self) -> u32;

    /// The most units that can be granted without waiting.
    fn capacity(&self) -> u32;

    /// The rate at which units come back.
    fn rate_per_second(&self) -> Rate;

    /// Milliseconds until the next unit can be requested, where none can be
    /// now.
    fn time_until_next_token_ms(&self) -> Option<u64>;

    /// The time until the next unit can be requested, where none can be now:
    /// what [`RateLimiter::time_until_next_token_ms`] tells, as a `Duration`.
    fn time_until_next_token(&self) -> (wait: Option<Duration>) {
        match self.time_until_next_token_ms() {
            Some(ms) => Some(Duration::from_millis(ms)),
            None => None,
        }
    }
}

/// A limiter whose clock can be replaced.
pub trait WithClock<C>: Sized {
    /// The same limiter, reading the time from `clock`.
    fn with_clock(self, clock: C) -> Self;
}

/// A limiter whose capacity and rate can be changed while it is in use.
pub trait ReconfigurableRateLimiter: RateLimiter {
    /// Gives the limiter a new capacity and rate, or refuses them.
    fn update_config(&self, capacity: u32, tokens_per_second: Rate) -> Result<(), RateLimitError>;
}

/// A builder of limiters.
pub trait RateLimiterBuilder: Sized {
    /// The limiter that is built.
    type Limiter: RateLimiter;

    /// Sets the capacity.
    fn capacity(self, capacity: u32) -> Self;

    /// Sets the rate.
    fn tokens_per_second(self, tokens_per_second: Rate) -> Self;

    /// Builds the limiter, or refuses the configuration.
    fn build(self) -> Result<Self::Limiter, RateLimitError>;
}

} // verus!
