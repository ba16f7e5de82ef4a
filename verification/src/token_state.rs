//! The token bucket as a sequential state machine: a pool of units that
//! refills with time, up to a capacity, and from which requests take.
//!
//! [`TokenView`] is the state as numbers, with each transition as a function
//! of the state and the time. [`TokenState`] is the same state in machine
//! integers; its methods compute those transitions.

use crate::error::RateLimitError;
use crate::rate::{
    accrued, clip, lemma_accrued_monotonic, lemma_accrued_reaches, lemma_wait_bounded,
    time_until_due, until_due, wait_for, Rate, TICKS_PER_UNIT,
};
use vstd::prelude::*;

verus! {

/// Why a token bucket refuses a capacity of zero.
pub open spec fn capacity_reason() -> Seq<char> {
    "capacity must be greater than 0"@
}

/// Why a token bucket refuses a rate of zero.
pub open spec fn token_rate_reason() -> Seq<char> {
    "tokens_per_second must be positive"@
}

/// A token bucket's state: every quantity as a natural number.
pub struct TokenView {
    /// The most units the bucket holds.
    pub capacity: nat,
    /// Millionths of a unit that are added per second.
    pub rate: nat,
    /// The units in the bucket as of `last_update`.
    pub tokens: nat,
    /// The time, in milliseconds, at which `tokens` was last brought up to date.
    pub last_update: nat,
}

impl TokenView {
    /// The states that a bucket can reach: capacity and rate are positive and
    /// the bucket holds no more than its capacity.
    pub open spec fn wf(self) -> bool {
        &&& self.capacity > 0
        &&& self.rate > 0
        &&& self.tokens <= self.capacity
    }

    /// A full bucket created at `now`.
    pub open spec fn full(capacity: nat, rate: nat, now: nat) -> TokenView {
        TokenView { capacity, rate, tokens: capacity, last_update: now }
    }

    /// Milliseconds from the last update to `now`; zero where `now` is not later.
    pub open spec fn elapsed(self, now: nat) -> nat {
        if now > self.last_update {
            (now - self.last_update) as nat
        } else {
            0
        }
    }

    /// The state brought up to date at `now`. Where at least one whole unit
    /// has accrued since the last update, the accrued units are added, up to
    /// the capacity, and the update time moves to `now`; otherwise nothing
    /// changes, and the time that has passed stays on account.
    pub open spec fn refilled(self, now: nat) -> TokenView {
        let added = accrued(self.rate, self.elapsed(now));
        if added == 0 {
            self
        } else {
            TokenView {
                tokens: if self.tokens + added < self.capacity {
                    self.tokens + added
                } else {
                    self.capacity
                },
                last_update: now,
                ..self
            }
        }
    }

    /// The units that can be taken at `now`.
    pub open spec fn available(self, now: nat) -> nat {
        self.refilled(now).tokens
    }

    /// The state after `n` units are requested from it as it stands, with no
    /// refill: the units leave where the bucket holds them, and nothing
    /// changes where it does not.
    pub open spec fn taken(self, n: nat) -> TokenView {
        if n <= self.tokens {
            TokenView { tokens: (self.tokens - n) as nat, ..self }
        } else {
            self
        }
    }

    /// What a request for `n` units is told where the bucket, as it stands,
    /// holds fewer: the units it holds, and the time in which the missing
    /// ones accrue.
    pub open spec fn refusal(self, n: u32) -> RateLimitError {
        RateLimitError::RateLimitExceeded {
            requested: n,
            available: self.tokens as u32,
            retry_after_ms: wait_for(self.rate, (n - self.tokens) as nat) as u64,
        }
    }

    /// Whether a request for `n` units at `now` is granted.
    pub open spec fn admits(self, n: nat, now: nat) -> bool {
        n == 0 || n <= self.available(now)
    }

    /// The state after a request for `n` units at `now`. A request for
    /// nothing leaves the state as it is, without a refill.
    pub open spec fn acquired(self, n: nat, now: nat) -> TokenView {
        if n == 0 {
            self
        } else {
            self.refilled(now).taken(n)
        }
    }

    /// The answer to a request for `n` units from the bucket as it stands.
    pub open spec fn answer_as_is(self, n: u32) -> Result<(), RateLimitError> {
        if n <= self.tokens {
            Ok(())
        } else {
            Err(self.refusal(n))
        }
    }

    /// The answer to a request for `n` units at `now`.
    pub open spec fn answer(self, n: u32, now: nat) -> Result<(), RateLimitError> {
        if self.admits(n as nat, now) {
            Ok(())
        } else {
            Err(self.refilled(now).refusal(n))
        }
    }

    /// Milliseconds from `now` until a unit can be taken, where none can be
    /// taken at `now`; nothing where one can, or where none is due.
    pub open spec fn next_unit_in(self, now: nat) -> Option<nat> {
        if self.available(now) > 0 {
            None
        } else {
            until_due(self.last_update, wait_for(self.rate, 1), now)
        }
    }

    /// The state with a new capacity and rate: the bucket keeps its units, but
    /// no more than the new capacity.
    pub open spec fn with_rate(self, capacity: nat, rate: nat) -> TokenView {
        TokenView {
            capacity,
            rate,
            tokens: if self.tokens < capacity {
                self.tokens
            } else {
                capacity
            },
            last_update: self.last_update,
        }
    }

    /// The state after a reconfiguration at `now`: brought up to date under
    /// the old capacity and rate, then given the new ones.
    pub open spec fn reconfigured(self, capacity: nat, rate: nat, now: nat) -> TokenView {
        self.refilled(now).with_rate(capacity, rate)
    }

    /// How many of `attempts` successive requests for one unit, all at `now`,
    /// are granted.
    pub open spec fn granted_of(self, attempts: nat, now: nat) -> nat
        decreases attempts,
    {
        if attempts == 0 {
            0
        } else {
            let first: nat = if self.admits(1, now) {
                1
            } else {
                0
            };
            first + self.acquired(1, now).granted_of((attempts - 1) as nat, now)
        }
    }
}

/// A full bucket with a positive capacity and rate is a state that a bucket
/// can reach, and every transition leads from such a state to such a state.
pub proof fn lemma_token_states_stay_reachable(
    s: TokenView,
    n: nat,
    capacity: nat,
    rate: nat,
    now: nat,
)
    requires
        capacity > 0,
        rate > 0,
    ensures
        TokenView::full(capacity, rate, now).wf(),
        s.reconfigured(capacity, rate, now).wf(),
        s.wf() ==> s.refilled(now).wf() && s.taken(n).wf() && s.acquired(n, now).wf(),
{
}

/// At no time can more units be taken than the bucket's capacity.
pub proof fn lemma_token_available_within_capacity(s: TokenView, now: nat)
    requires
        s.wf(),
    ensures
        s.available(now) <= s.capacity,
{
}

/// A request for nothing is granted at any time and leaves the state, and
/// with it the units that can be taken at any later time, unchanged.
pub proof fn lemma_token_zero_request_is_free(s: TokenView, now: nat, later: nat)
    ensures
        s.admits(0, now),
        s.acquired(0, now) == s,
        s.acquired(0, now).available(later) == s.available(later),
{
}

/// After a reconfiguration to a positive capacity and rate, whatever the
/// state before it, the bucket has the new rate and capacity, and at no
/// time can more units be taken than the new capacity.
pub proof fn lemma_token_reconfigured_within_capacity(
    s: TokenView,
    capacity: nat,
    rate: nat,
    now: nat,
    later: nat,
)
    requires
        capacity > 0,
        rate > 0,
    ensures
        s.reconfigured(capacity, rate, now).rate == rate,
        s.reconfigured(capacity, rate, now).capacity == capacity,
        s.reconfigured(capacity, rate, now).available(later) <= capacity,
{
}

/// Bringing a state up to date twice at the same time is the same as doing
/// so once: reading the available units again, with no time passed and
/// nothing taken, gives the same number.
pub proof fn lemma_token_available_is_stable(s: TokenView, now: nat)
    ensures
        s.refilled(now).refilled(now) == s.refilled(now),
        s.refilled(now).available(now) == s.available(now),
{
    let once = s.refilled(now);
    if accrued(s.rate, s.elapsed(now)) != 0 {
        assert(once.elapsed(now) == 0);
        assert(0 * once.rate == 0) by (nonlinear_arith);
        assert(accrued(once.rate, 0) == 0);
    }
}

/// Of successive requests for one unit, all at the same time, exactly as many
/// are granted as units can be taken at that time, or all of them where
/// there are fewer requests than units: no unit is granted twice and none is
/// lost.
pub proof fn lemma_token_burst_grants_available(s: TokenView, attempts: nat, now: nat)
    requires
        s.wf(),
    ensures
        s.granted_of(attempts, now) == if attempts <= s.available(now) {
            attempts
        } else {
            s.available(now)
        },
    decreases attempts,
{
    if attempts > 0 {
        let next = s.acquired(1, now);
        lemma_token_available_is_stable(s, now);
        assert(next.available(now) == if s.available(now) > 0 {
            (s.available(now) - 1) as nat
        } else {
            0
        }) by {
            let once = s.refilled(now);
            if s.available(now) > 0 {
                assert(next == TokenView { tokens: (once.tokens - 1) as nat, ..once });
                if accrued(s.rate, s.elapsed(now)) != 0 {
                    assert(next.elapsed(now) == 0);
                    assert(0 * next.rate == 0) by (nonlinear_arith);
                } else {
                    assert(next.elapsed(now) == s.elapsed(now));
                }
                assert(accrued(next.rate, next.elapsed(now)) == 0);
            } else {
                assert(next == once);
            }
        }
        lemma_token_burst_grants_available(next, (attempts - 1) as nat, now);
    }
}

/// Where no unit can be taken at `now`, the time until the next unit is
/// told, it is positive, a unit can be taken once it has passed, and none can
/// be taken before.
pub proof fn lemma_token_next_unit_is_earliest(s: TokenView, now: nat, sooner: nat)
    requires
        s.wf(),
        s.available(now) == 0,
    ensures
        s.next_unit_in(now) matches Some(wait) && wait > 0 && s.available(now + wait) > 0 && (sooner
            < wait ==> s.available(now + sooner) == 0),
{
    let step = wait_for(s.rate, 1);
    lemma_accrued_reaches(s.rate, s.elapsed(now), 1);
    let wait = (s.last_update + step - now) as nat;
    lemma_accrued_reaches(s.rate, s.elapsed(now + wait), 1);
    if sooner < wait {
        lemma_accrued_reaches(s.rate, s.elapsed(now + sooner), 1);
    }
}

/// Where a request for no more than the capacity is refused at `now`, and
/// the clock has not gone back behind the last update, the same request is
/// granted once the time to wait that the refusal carries has passed.
pub proof fn lemma_token_retry_after_suffices(s: TokenView, n: u32, now: nat)
    requires
        s.wf(),
        n <= s.capacity,
        s.last_update <= now,
        !s.admits(n as nat, now),
    ensures
        s.answer(n, now) matches Err(RateLimitError::RateLimitExceeded { retry_after_ms, .. })
            && retry_after_ms == wait_for(s.rate, (n - s.available(now)) as nat)
            && s.acquired(n as nat, now).admits(n as nat, now + retry_after_ms as nat),
{
    let after = s.acquired(n as nat, now);
    let missing = (n - s.available(now)) as nat;
    let wait = wait_for(s.rate, missing);
    lemma_wait_bounded(s.rate, missing);
    assert(missing * TICKS_PER_UNIT <= u64::MAX) by (nonlinear_arith)
        requires
            missing <= u32::MAX,
    ;
    assert(after == s.refilled(now));
    assert(after.last_update <= now);
    lemma_accrued_reaches(s.rate, wait, missing);
    lemma_accrued_monotonic(s.rate, wait, after.elapsed(now + wait));
}

/// A token bucket's state in machine integers.
#[derive(Clone, Copy, Debug)]
pub struct TokenState {
    capacity: u32,
    rate: Rate,
    tokens: u32,
    last_update: u64,
}

impl View for TokenState {
    type V = TokenView;

    closed spec fn view(&self) -> TokenView {
        TokenView {
            capacity: self.capacity as nat,
            rate: self.rate@,
            tokens: self.tokens as nat,
            last_update: self.last_update as nat,
        }
    }
}

impl TokenState {
    /// A full bucket of `capacity` units that refills at `rate`, created at `now`.
    pub fn new(capacity: u32, rate: Rate, now: u64) -> (s: TokenState)
        requires
            capacity > 0,
            rate@ > 0,
        ensures
            s@ == TokenView::full(capacity as nat, rate@, now as nat),
            s@.wf(),
    {
        TokenState { capacity, rate, tokens: capacity, last_update: now }
    }

    /// The state that holds the given numbers, whatever they are.
    pub fn from_parts(capacity: u32, rate: Rate, tokens: u32, last_update: u64) -> (s: TokenState)
        ensures
            s@ == (TokenView {
                capacity: capacity as nat,
                rate: rate@,
                tokens: tokens as nat,
                last_update: last_update as nat,
            }),
    {
        TokenState { capacity, rate, tokens, last_update }
    }

    /// The most units the bucket holds.
    pub fn capacity(&self) -> (c: u32)
        ensures
            c == self@.capacity,
    {
        self.capacity
    }

    /// The rate at which units are added.
    pub fn rate(&self) -> (r: Rate)
        ensures
            r@ == self@.rate,
    {
        self.rate
    }

    /// The units in the bucket as of the last update.
    pub fn tokens(&self) -> (t: u32)
        ensures
            t == self@.tokens,
    {
        self.tokens
    }

    /// The time of the last update.
    pub fn last_update(&self) -> (t: u64)
        ensures
            t == self@.last_update,
    {
        self.last_update
    }

    /// Brings the state up to date at `now`.
    pub fn refill(&mut self, now: u64)
        ensures
            final(self)@ == old(self)@.refilled(now as nat),
    {
        let elapsed: u64 = if now > self.last_update {
            now - self.last_update
        } else {
            0
        };
        let added: u64 = self.rate.accrued(elapsed);
        if added > 0 {
            if self.tokens < self.capacity && added < (self.capacity - self.tokens) as u64 {
                self.tokens = self.tokens + added as u32;
            } else {
                self.tokens = self.capacity;
            }
            self.last_update = now;
        }
    }

    /// Brings the state up to date at `now` and returns the units that can be
    /// taken.
    pub fn available(&mut self, now: u64) -> (units: u32)
        ensures
            final(self)@ == old(self)@.refilled(now as nat),
            units == old(self)@.available(now as nat),
            old(self)@.wf() ==> units <= old(self)@.capacity && final(self)@.wf(),
    {
        self.refill(now);
        self.tokens
    }

    /// Takes `n` units from the bucket as it stands, with no refill, or
    /// refuses and leaves it unchanged.
    pub fn take(&mut self, n: u32) -> (r: Result<(), RateLimitError>)
        ensures
            final(self)@ == old(self)@.taken(n as nat),
            r == old(self)@.answer_as_is(n),
    {
        if n > self.tokens {
            let missing: u32 = n - self.tokens;
            proof {
                if self.rate@ > 0 {
                    lemma_wait_bounded(self.rate@, missing as nat);
                }
                assert(missing * TICKS_PER_UNIT <= u64::MAX) by (nonlinear_arith)
                    requires
                        missing <= u32::MAX,
                ;
            }
            let wait: u64 = self.rate.wait_for(missing as u64);
            Err(RateLimitError::rate_limit_exceeded(n, self.tokens, wait))
        } else {
            self.tokens = self.tokens - n;
            Ok(())
        }
    }

    /// Requests `n` units at `now`. A request for nothing is granted and
    /// changes nothing. Any other request brings the state up to date first;
    /// it is granted, and the units leave, exactly where the bucket then
    /// holds at least `n`.
    pub fn try_acquire(&mut self, n: u32, now: u64) -> (r: Result<(), RateLimitError>)
        ensures
            final(self)@ == old(self)@.acquired(n as nat, now as nat),
            r == old(self)@.answer(n, now as nat),
            r is Ok <==> old(self)@.admits(n as nat, now as nat),
            old(self)@.wf() ==> final(self)@.wf(),
    {
        if n == 0 {
            return Ok(());
        }
        self.refill(now);
        self.take(n)
    }

    /// Milliseconds from `now` until a unit can be taken, where none can be
    /// taken at `now`. The state is read, not brought up to date.
    pub fn time_until_next_unit(&self, now: u64) -> (ms: Option<u64>)
        ensures
            ms == match self@.next_unit_in(now as nat) {
                Some(wait) => Some(clip(wait)),
                None => None,
            },
    {
        let mut ahead = *self;
        ahead.refill(now);
        if ahead.tokens > 0 {
            return None;
        }
        proof {
            if self.rate@ > 0 {
                lemma_wait_bounded(self.rate@, 1);
            }
        }
        time_until_due(self.last_update, self.rate.wait_for(1), now)
    }

    /// Gives the bucket a new capacity and rate, and caps its units at the
    /// new capacity.
    pub fn set_rate(&mut self, capacity: u32, rate: Rate)
        ensures
            final(self)@ == old(self)@.with_rate(capacity as nat, rate@),
    {
        self.capacity = capacity;
        self.rate = rate;
        if self.tokens > capacity {
            self.tokens = capacity;
        }
    }

    /// Reconfigures the bucket at `now`. A capacity or a rate of zero is
    /// refused and changes nothing. Otherwise the state is brought up to date
    /// under the old capacity and rate and then given the new ones.
    pub fn update_config(&mut self, capacity: u32, rate: Rate, now: u64) -> (r: Result<
        (),
        RateLimitError,
    >)
        ensures
            capacity > 0 && rate@ > 0 ==> r is Ok && final(self)@ == old(self)@.reconfigured(
                capacity as nat,
                rate@,
                now as nat,
            ),
            capacity == 0 ==> final(self)@ == old(self)@ && (r matches Err(
                RateLimitError::InvalidConfiguration { reason },
            ) && reason@ == capacity_reason()),
            capacity > 0 && rate@ == 0 ==> final(self)@ == old(self)@ && (r matches Err(
                RateLimitError::InvalidConfiguration { reason },
            ) && reason@ == token_rate_reason()),
    {
        if capacity == 0 {
            return Err(RateLimitError::invalid_config("capacity must be greater than 0"));
        }
        if !rate.is_positive() {
            return Err(RateLimitError::invalid_config("tokens_per_second must be positive"));
        }
        self.refill(now);
        self.set_rate(capacity, rate);
        Ok(())
    }
}

} // verus!
