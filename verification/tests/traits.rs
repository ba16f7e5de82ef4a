use bucketboss::clock::MockClock;
use bucketboss::error::RateLimitError;
use bucketboss::rate::Rate;
use bucketboss::traits::{RateLimiter, RateLimiterBuilder, ReconfigurableRateLimiter, WithClock};
use bucketboss::{LeakyBucket, TokenBucket};
use std::time::Duration;

// A test implementation of RateLimiter for testing the traits
struct TestRateLimiter {
    available: u32,
    capacity: u32,
    rate: Rate,
}

impl RateLimiter for TestRateLimiter {
    fn try_acquire(&self, tokens: u32) -> Result<(), RateLimitError> {
        if tokens <= self.available {
            Ok(())
        } else {
            Err(RateLimitError::rate_limit_exceeded(tokens, self.available, 1000))
        }
    }

    fn available_tokens(&self) -> u32 {
        self.available
    }

    fn capacity(&self) -> u32 {
        self.capacity
    }

    fn rate_per_second(&self) -> Rate {
        self.rate
    }

    fn time_until_next_token_ms(&self) -> Option<u64> {
        if self.available > 0 {
            None
        } else {
            Some(1000)
        }
    }
}

#[test]
fn test_rate_limiter_trait() {
    let limiter = TestRateLimiter {
        available: 5,
        capacity: 10,
        rate: Rate::per_second(1),
    };

    assert_eq!(limiter.available_tokens(), 5);
    assert_eq!(limiter.capacity(), 10);
    assert_eq!(limiter.rate_per_second(), Rate::per_second(1));

    // The TestRateLimiter doesn't track state, so all calls should work as long as tokens <= available
    assert!(limiter.try_acquire(3).is_ok());
    assert!(limiter.try_acquire(3).is_ok());
    // This should pass because we're not tracking state
    assert!(limiter.try_acquire(3).is_ok());

    // Verify that requesting more than available fails
    assert!(limiter.try_acquire(6).is_err());

    assert_eq!(limiter.time_until_next_token_ms(), None);
}

fn drain_through_the_trait<L: RateLimiter>(limiter: &L) -> u32 {
    let mut granted = 0;
    while limiter.try_acquire(1).is_ok() {
        granted += 1;
    }
    granted
}

#[test]
fn both_buckets_serve_through_the_trait() {
    let clock = MockClock::new(0);
    let tokens = TokenBucket::with_clock(4, Rate::per_second(10), clock.clone());
    let leaky = LeakyBucket::with_clock(Rate::per_second(10), Some(6), clock.clone());
    assert_eq!(drain_through_the_trait(&tokens), 4);
    assert_eq!(drain_through_the_trait(&leaky), 6);
    clock.advance(250);
    assert_eq!(drain_through_the_trait(&tokens), 2);
    assert_eq!(drain_through_the_trait(&leaky), 2);
}

fn reconfigure_through_the_trait<L: ReconfigurableRateLimiter>(
    limiter: &L,
    capacity: u32,
    rate: Rate,
) -> Result<(), RateLimitError> {
    limiter.update_config(capacity, rate)
}

#[test]
fn both_buckets_reconfigure_through_the_trait() {
    let clock = MockClock::new(0);
    let tokens = TokenBucket::with_clock(4, Rate::per_second(10), clock.clone());
    let leaky = LeakyBucket::with_clock(Rate::per_second(10), Some(6), clock.clone());
    assert!(reconfigure_through_the_trait(&tokens, 2, Rate::per_second(5)).is_ok());
    assert!(reconfigure_through_the_trait(&leaky, 2, Rate::per_second(5)).is_ok());
    assert_eq!(tokens.capacity(), 2);
    assert_eq!(leaky.capacity(), 2);
    assert!(reconfigure_through_the_trait(&tokens, 0, Rate::per_second(5)).is_err());
    assert!(reconfigure_through_the_trait(&leaky, 2, Rate::from_micro(0)).is_err());
}

#[test]
fn with_clock_replaces_the_clock_and_keeps_the_cells() {
    let first = MockClock::new(0);
    let second = MockClock::new(0);
    let bucket = TokenBucket::with_clock(5, Rate::per_second(10), first.clone());
    assert!(bucket.try_acquire(5).is_ok());
    let bucket = WithClock::with_clock(bucket, second.clone());
    first.advance(1000);
    assert_eq!(bucket.available_tokens(), 0);
    second.advance(200);
    assert_eq!(bucket.available_tokens(), 2);

    let bucket = LeakyBucket::with_clock(Rate::per_second(10), Some(5), first.clone());
    assert!(bucket.try_acquire(5).is_ok());
    let bucket = WithClock::with_clock(bucket, second.clone());
    first.advance(1000);
    assert_eq!(bucket.available_tokens(), 0);
    second.set(1300);
    assert_eq!(bucket.available_tokens(), 3);
}

struct TokenBucketBuilder {
    capacity: u32,
    rate: Rate,
}

impl RateLimiterBuilder for TokenBucketBuilder {
    type Limiter = TokenBucket<MockClock>;

    fn capacity(self, capacity: u32) -> Self {
        TokenBucketBuilder { capacity, ..self }
    }

    fn tokens_per_second(self, tokens_per_second: Rate) -> Self {
        TokenBucketBuilder { rate: tokens_per_second, ..self }
    }

    fn build(self) -> Result<Self::Limiter, RateLimitError> {
        if self.capacity == 0 {
            return Err(RateLimitError::invalid_config("capacity must be greater than 0"));
        }
        if !self.rate.is_positive() {
            return Err(RateLimitError::invalid_config("tokens_per_second must be positive"));
        }
        Ok(TokenBucket::with_clock(self.capacity, self.rate, MockClock::new(0)))
    }
}

#[test]
fn a_builder_builds_or_refuses() {
    let empty = TokenBucketBuilder { capacity: 0, rate: Rate::from_micro(0) };
    let bucket = empty.capacity(3).tokens_per_second(Rate::per_second(2)).build().unwrap();
    assert_eq!(bucket.capacity(), 3);
    assert_eq!(bucket.rate_per_second(), Rate::per_second(2));
    assert_eq!(bucket.available_tokens(), 3);
    let empty = TokenBucketBuilder { capacity: 0, rate: Rate::from_micro(0) };
    assert!(empty.tokens_per_second(Rate::per_second(2)).build().unwrap_err().is_invalid_config());
}

#[test]
fn the_wait_for_the_next_unit_as_a_duration() {
    let limiter = TestRateLimiter { available: 0, capacity: 10, rate: Rate::per_second(1) };
    assert_eq!(limiter.time_until_next_token(), Some(Duration::from_secs(1)));
    let limiter = TestRateLimiter { available: 1, capacity: 10, rate: Rate::per_second(1) };
    assert_eq!(limiter.time_until_next_token(), None);

    let clock = MockClock::new(0);
    let tokens = TokenBucket::with_clock(2, Rate::per_second(4), clock.clone());
    let leaky = LeakyBucket::with_clock(Rate::per_second(4), Some(2), clock.clone());
    assert_eq!(tokens.time_until_next_token(), None);
    assert_eq!(leaky.time_until_next_token(), None);
    assert!(tokens.try_acquire(2).is_ok());
    assert!(leaky.try_acquire(2).is_ok());
    clock.advance(100);
    assert_eq!(tokens.time_until_next_token(), Some(Duration::from_millis(150)));
    assert_eq!(leaky.time_until_next_token(), Some(Duration::from_millis(150)));
}
