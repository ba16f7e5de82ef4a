//! Rate limiting with a token bucket and a leaky bucket.
//!
//! Both limiters answer at once whether a number of units can be had now,
//! and both are shared by reference among any number of callers without a
//! lock. Time comes from a [`Clock`] that the limiter is built with.
//!
//! Each limiter is given twice. [`token_state::TokenState`] and
//! [`leaky_state::LeakyState`] are the limiters as sequential state machines:
//! plain values, with every transition stated exactly. [`TokenBucket`] and
//! [`LeakyBucket`] hold the same numbers in atomic cells and apply the same
//! transitions to what they read there.

pub mod clock;
pub mod error;
pub mod leaky_bucket;
pub mod leaky_state;
pub mod rate;
pub mod testing;
pub mod token_bucket;
pub mod token_state;
pub mod traits;

pub use clock::{Clock, MockClock, SystemClock};
pub use error::RateLimitError;
pub use leaky_bucket::LeakyBucket;
pub use leaky_state::LeakyState;
pub use rate::Rate;
pub use token_bucket::TokenBucket;
pub use token_state::TokenState;
pub use traits::{RateLimiter, RateLimiterBuilder, ReconfigurableRateLimiter, WithClock};
