//! The leaky bucket as a sequential state machine: a backlog that requests
//! add to, up to a capacity, and that drains with time.
//!
//! [`LeakyView`] is the state as numbers, with each transition as a function
//! of the state and the time. [`LeakyState`] is the same state in machine
//! integers; its methods compute those transitions.

use crate::error::RateLimitError;
use crate::rate::{
    accrued, clip, lemma_accrued_monotonic, lemma_accrued_reaches, lemma_floor_reaches,
    lemma_span_within, lemma_wait_bounded, lemma_whole_span, span_of, time_until_due,
    until_due, wait_for, Rate, TICKS_PER_UNIT,
};
use vstd::prelude::*;

verus! {

/// Why a leaky bucket refuses a capacity of zero.
pub open spec fn burst_reason() -> Seq<char> {
    "capacity must be greater than 0"@
}

/// Why a leaky bucket refuses a rate of zero.
pub open spec fn leaky_rate_reason() -> Seq<char> {
    "requests_per_second must be positive"@
}

/// A leaky bucket's state: every quantity as a natural number.
pub struct LeakyView {
    /// The most units that may be outstanding.
    pub capacity: nat,
    /// Millionths of a unit that drain per second.
    pub rate: nat,
    /// The units outstanding as of the last drain.
    pub level: nat,
    /// The time, in milliseconds, from which the next drain counts.
    pub next_allowed: nat,
}

impl LeakyView {
    /// The states that a bucket can reach: capacity and rate are positive and
    /// no more than the capacity is outstanding.
    pub open spec fn wf(self) -> bool {
        &&& self.capacity > 0
        &&& self.rate > 0
        &&& self.level <= self.capacity
    }

    /// An empty bucket created at `now`.
    pub open spec fn empty(capacity: nat, rate: nat, now: nat) -> LeakyView {
        LeakyView { capacity, rate, level: 0, next_allowed: now }
    }

    /// Milliseconds from the start of the running interval to `now`; zero
    /// where `now` is not later.
    pub open spec fn elapsed(self, now: nat) -> nat {
        if now > self.next_allowed {
            (now - self.next_allowed) as nat
        } else {
            0
        }
    }

    /// The state drained at `now`. An empty backlog stays as it is. Where the
    /// whole backlog has drained, the bucket is empty and the next interval
    /// starts one unit's span after `now` (no later than the last time that
    /// can be told). Where a part has drained, it leaves, and the interval
    /// moves on by that part's span, so that time already spent on the next
    /// unit stays on account.
    pub open spec fn drained(self, now: nat) -> LeakyView {
        let processed = accrued(self.rate, self.elapsed(now));
        if self.level == 0 || processed == 0 {
            self
        } else if processed >= self.level {
            LeakyView {
                level: 0,
                next_allowed: clip(now + span_of(self.rate, 1)) as nat,
                ..self
            }
        } else {
            LeakyView {
                level: (self.level - processed) as nat,
                next_allowed: self.next_allowed + span_of(self.rate, processed),
                ..self
            }
        }
    }

    /// The units that the bucket, as it stands, can still take on.
    pub open spec fn headroom(self) -> nat {
        if self.level < self.capacity {
            (self.capacity - self.level) as nat
        } else {
            0
        }
    }

    /// The units that can be requested at `now`.
    pub open spec fn available(self, now: nat) -> nat {
        self.drained(now).headroom()
    }

    /// Whether the bucket, as it stands, takes on `n` more units.
    pub open spec fn fits(self, n: nat) -> bool {
        n == 0 || self.level + n <= self.capacity
    }

    /// The state after `n` units are requested from it as it stands, with no
    /// drain: they join the backlog where they fit, and nothing changes where
    /// they do not.
    pub open spec fn added(self, n: nat) -> LeakyView {
        if self.fits(n) {
            LeakyView { level: self.level + n, ..self }
        } else {
            self
        }
    }

    /// What a request for more units than the capacity is told: the capacity,
    /// and that no wait helps.
    pub open spec fn oversize(self, n: u32) -> RateLimitError {
        RateLimitError::RateLimitExceeded {
            requested: n,
            available: self.capacity as u32,
            retry_after_ms: 0,
        }
    }

    /// What a request for `n` units is told where they do not fit in the
    /// bucket as it stands: the headroom, and the time in which the excess
    /// drains.
    pub open spec fn refusal(self, n: u32) -> RateLimitError {
        RateLimitError::RateLimitExceeded {
            requested: n,
            available: self.headroom() as u32,
            retry_after_ms: wait_for(self.rate, (self.level + n - self.capacity) as nat) as u64,
        }
    }

    /// The answer to a request for `n` units from the bucket as it stands.
    pub open spec fn answer_as_is(self, n: u32) -> Result<(), RateLimitError> {
        if n == 0 {
            Ok(())
        } else if n > self.capacity {
            Err(self.oversize(n))
        } else if self.level + n > self.capacity {
            Err(self.refusal(n))
        } else {
            Ok(())
        }
    }

    /// Whether a request for `n` units at `now` is granted.
    pub open spec fn admits(self, n: nat, now: nat) -> bool {
        n == 0 || (n <= self.capacity && self.drained(now).fits(n))
    }

    /// The state after a request for `n` units at `now`. A request for
    /// nothing, or for more than the capacity, leaves the state as it is,
    /// without a drain.
    pub open spec fn acquired(self, n: nat, now: nat) -> LeakyView {
        if n == 0 || n > self.capacity {
            self
        } else {
            self.drained(now).added(n)
        }
    }

    /// The answer to a request for `n` units at `now`.
    pub open spec fn answer(self, n: u32, now: nat) -> Result<(), RateLimitError> {
        if n == 0 || n > self.capacity {
            self.answer_as_is(n)
        } else {
            self.drained(now).answer_as_is(n)
        }
    }

    /// Milliseconds from `now` until a unit can be requested, where none can
    /// be at `now`; nothing where one can, or where none is due.
    pub open spec fn next_unit_in(self, now: nat) -> Option<nat> {
        if self.available(now) > 0 {
            None
        } else {
            until_due(self.next_allowed, wait_for(self.rate, 1), now)
        }
    }

    /// The state with a new capacity and rate at `now`: the backlog stays, but
    /// no more of it than the new capacity; the running interval starts at
    /// `now` where the backlog is empty, and no earlier than `now` where it
    /// is not.
    pub open spec fn with_rate(self, capacity: nat, rate: nat, now: nat) -> LeakyView {
        LeakyView {
            capacity,
            rate,
            level: if self.level < capacity {
                self.level
            } else {
                capacity
            },
            next_allowed: if self.level == 0 || self.next_allowed < now {
                now
            } else {
                self.next_allowed
            },
        }
    }

    /// The state after a reconfiguration at `now`: drained under the old
    /// capacity and rate, then given the new ones.
    pub open spec fn reconfigured(self, capacity: nat, rate: nat, now: nat) -> LeakyView {
        self.drained(now).with_rate(capacity, rate, now)
    }

    /// Whether a second drain at `now` finds more to drain than the first.
    /// A partial drain moves the interval on by the whole milliseconds of
    /// what drained; where a unit's span is not a whole number of
    /// milliseconds, the time left on account can then amount to a unit more.
    pub open spec fn slips(self, now: nat) -> bool {
        let once = self.drained(now);
        once.level > 0 && accrued(once.rate, once.elapsed(now)) > 0
    }
}

/// An empty bucket with a positive capacity and rate is a state that a bucket
/// can reach, and every transition leads from such a state to such a state.
pub proof fn lemma_leaky_states_stay_reachable(
    s: LeakyView,
    n: nat,
    capacity: nat,
    rate: nat,
    now: nat,
)
    requires
        capacity > 0,
        rate > 0,
    ensures
        LeakyView::empty(capacity, rate, now).wf(),
        s.reconfigured(capacity, rate, now).wf(),
        s.wf() ==> s.drained(now).wf() && s.added(n).wf() && s.acquired(n, now).wf(),
{
}

/// At no time can more units be requested than the bucket's capacity.
pub proof fn lemma_leaky_available_within_capacity(s: LeakyView, now: nat)
    ensures
        s.available(now) <= s.capacity,
{
}

/// A request for nothing is granted at any time and leaves the state, and
/// with it the units that can be requested at any later time, unchanged.
pub proof fn lemma_leaky_zero_request_is_free(s: LeakyView, now: nat, later: nat)
    ensures
        s.admits(0, now),
        s.answer(0, now) is Ok,
        s.acquired(0, now) == s,
        s.acquired(0, now).available(later) == s.available(later),
{
}

/// A request for more units than the capacity is refused at any time and
/// whatever the backlog, with no time to wait, and leaves the state
/// unchanged.
pub proof fn lemma_leaky_oversize_is_refused(s: LeakyView, n: u32, now: nat)
    requires
        n > s.capacity,
    ensures
        !s.admits(n as nat, now),
        s.answer(n, now) matches Err(
            RateLimitError::RateLimitExceeded { requested, retry_after_ms, .. },
        ) && requested == n && retry_after_ms == 0,
        s.acquired(n as nat, now) == s,
{
}

/// After a reconfiguration to a positive capacity and rate, whatever the
/// state before it, the bucket has the new rate and capacity, at no time can
/// more units be requested than the new capacity, and the running interval
/// starts no earlier than the time of the reconfiguration.
pub proof fn lemma_leaky_reconfigured_within_capacity(
    s: LeakyView,
    capacity: nat,
    rate: nat,
    now: nat,
    later: nat,
)
    requires
        capacity > 0,
        rate > 0,
    ensures
        s.reconfigured(capacity, rate, now).rate == rate,
        s.reconfigured(capacity, rate, now).capacity == capacity,
        s.reconfigured(capacity, rate, now).available(later) <= capacity,
        s.reconfigured(capacity, rate, now).next_allowed >= now,
{
}

/// Unless the drain at `now` slips, draining a state twice at the same time
/// is the same as doing so once: reading the available units again, with
/// no time passed and nothing requested, gives the same number.
pub proof fn lemma_leaky_available_is_stable(s: LeakyView, now: nat)
    requires
        !s.slips(now),
    ensures
        s.drained(now).drained(now) == s.drained(now),
        s.drained(now).available(now) == s.available(now),
{
}

/// Where the drain at `now` slips, a second reading of the available units
/// at the same time is greater than the first.
pub proof fn lemma_leaky_slip_frees_more(s: LeakyView, now: nat)
    requires
        s.wf(),
        s.slips(now),
    ensures
        s.drained(now).available(now) > s.available(now),
{
}

/// At a rate whose span per unit is a whole number of milliseconds, no drain
/// slips.
pub proof fn lemma_leaky_whole_spans_never_slip(s: LeakyView, now: nat)
    requires
        s.rate > 0,
        (TICKS_PER_UNIT as nat) % s.rate == 0,
    ensures
        !s.slips(now),
{
    let elapsed = s.elapsed(now);
    let processed = accrued(s.rate, elapsed);
    let once = s.drained(now);
    if s.level > 0 && processed > 0 {
        if processed >= s.level {
            assert(once.level == 0);
        } else {
            let each = (TICKS_PER_UNIT as nat) / s.rate;
            lemma_whole_span(s.rate, processed);
            lemma_whole_span(s.rate, processed + 1);
            lemma_whole_span(s.rate, 1);
            lemma_span_within(s.rate, elapsed);
            lemma_accrued_reaches(s.rate, elapsed, processed + 1);
            assert((processed + 1) * each == processed * each + each) by (nonlinear_arith);
            assert(1 * each == each) by (nonlinear_arith);
            assert(once.elapsed(now) == elapsed - processed * each);
            lemma_accrued_reaches(s.rate, once.elapsed(now), 1);
        }
    }
}

/// Where no unit can be requested at `now`, the time until the next one is
/// told, it is positive, a unit can be requested once it has passed, and
/// none can be before.
pub proof fn lemma_leaky_next_unit_is_earliest(s: LeakyView, now: nat, sooner: nat)
    requires
        s.wf(),
        s.available(now) == 0,
    ensures
        s.next_unit_in(now) matches Some(wait) && wait > 0 && s.available(now + wait) > 0 && (sooner
            < wait ==> s.available(now + sooner) == 0),
{
    let step = wait_for(s.rate, 1);
    lemma_accrued_reaches(s.rate, s.elapsed(now), 1);
    let wait = (s.next_allowed + step - now) as nat;
    lemma_accrued_reaches(s.rate, s.elapsed(now + wait), 1);
    if sooner < wait {
        lemma_accrued_reaches(s.rate, s.elapsed(now + sooner), 1);
    }
}

/// Where a request for no more than the capacity is refused at `now`, and
/// the running interval has started by then, the same request is granted
/// once the time to wait that the refusal carries has passed.
pub proof fn lemma_leaky_retry_after_suffices(s: LeakyView, n: u32, now: nat)
    requires
        s.wf(),
        n <= s.capacity,
        s.next_allowed <= now,
        !s.admits(n as nat, now),
    ensures
        s.answer(n, now) matches Err(RateLimitError::RateLimitExceeded { retry_after_ms, .. })
            && retry_after_ms == wait_for(
            s.rate,
            (s.drained(now).level + n - s.capacity) as nat,
        ) && s.acquired(n as nat, now).admits(n as nat, now + retry_after_ms as nat),
{
    let after = s.acquired(n as nat, now);
    assert(after == s.drained(now));
    let excess = (after.level + n - s.capacity) as nat;
    let wait = wait_for(s.rate, excess);
    lemma_wait_bounded(s.rate, excess);
    assert(excess * TICKS_PER_UNIT <= u64::MAX) by (nonlinear_arith)
        requires
            excess <= u32::MAX,
    ;
    lemma_span_within(s.rate, s.elapsed(now));
    assert(after.next_allowed <= now);
    lemma_accrued_reaches(s.rate, wait, excess);
    lemma_accrued_monotonic(s.rate, wait, after.elapsed(now + wait));
}

/// A leaky bucket's state in machine integers.
#[derive(Clone, Copy, Debug)]
pub struct LeakyState {
    capacity: u32,
    rate: Rate,
    level: u32,
    next_allowed: u64,
}

impl View for LeakyState {
    type V = LeakyView;

    closed spec fn view(&self) -> LeakyView {
        LeakyView {
            capacity: self.capacity as nat,
            rate: self.rate@,
            level: self.level as nat,
            next_allowed: self.next_allowed as nat,
        }
    }
}

impl LeakyState {
    /// An empty bucket that drains at `rate` and lets `burst_size` units be
    /// outstanding (one, where no burst size is given), created at `now`.
    pub fn new(rate: Rate, burst_size: Option<u32>, now: u64) -> (s: LeakyState)
        requires
            rate@ > 0,
            burst_size != Some(0u32),
        ensures
            s@ == LeakyView::empty(
                match burst_size {
                    Some(burst) => burst as nat,
                    None => 1,
                },
                rate@,
                now as nat,
            ),
            s@.wf(),
    {
        let capacity: u32 = match burst_size {
            Some(burst) => burst,
            None => 1,
        };
        LeakyState { capacity, rate, level: 0, next_allowed: now }
    }

    /// The state that holds the given numbers, whatever they are.
    pub fn from_parts(capacity: u32, rate: Rate, level: u32, next_allowed: u64) -> (s: LeakyState)
        ensures
            s@ == (LeakyView {
                capacity: capacity as nat,
                rate: rate@,
                level: level as nat,
                next_allowed: next_allowed as nat,
            }),
    {
        LeakyState { capacity, rate, level, next_allowed }
    }

    /// The most units that may be outstanding.
    pub fn capacity(&self) -> (c: u32)
        ensures
            c == self@.capacity,
    {
        self.capacity
    }

    /// The rate at which the backlog drains.
    pub fn rate(&self) -> (r: Rate)
        ensures
            r@ == self@.rate,
    {
        self.rate
    }

    /// The units outstanding as of the last drain.
    pub fn level(&self) -> (l: u32)
        ensures
            l == self@.level,
    {
        self.level
    }

    /// The time from which the next drain counts.
    pub fn next_allowed(&self) -> (t: u64)
        ensures
            t == self@.next_allowed,
    {
        self.next_allowed
    }

    /// The units that the bucket, as it stands, can still take on.
    pub fn headroom(&self) -> (units: u32)
        ensures
            units == self@.headroom(),
    {
        if self.level < self.capacity {
            self.capacity - self.level
        } else {
            0
        }
    }

    /// Drains the state at `now`.
    pub fn drain(&mut self, now: u64)
        ensures
            final(self)@ == old(self)@.drained(now as nat),
    {
        if self.level == 0 {
            return ;
        }
        let elapsed: u64 = if now > self.next_allowed {
            now - self.next_allowed
        } else {
            0
        };
        let processed: u64 = self.rate.accrued(elapsed);
        if processed == 0 {
            return ;
        }
        if processed >= self.level as u64 {
            proof {
                if self.rate@ > 0 {
                    lemma_floor_reaches(TICKS_PER_UNIT as int, self.rate@ as int, TICKS_PER_UNIT as int + 1);
                    assert((TICKS_PER_UNIT + 1) * self.rate@ >= TICKS_PER_UNIT + 1) by (nonlinear_arith)
                        requires
                            self.rate@ >= 1,
                    ;
                }
            }
            let step: u64 = self.rate.span_of(1);
            self.level = 0;
            self.next_allowed = if step > u64::MAX - now {
                u64::MAX
            } else {
                now + step
            };
        } else {
            proof {
                lemma_span_within(self.rate@, elapsed as nat);
                assert(span_of(self.rate@, processed as nat) <= elapsed);
            }
            let moved: u64 = self.rate.span_of(processed);
            self.level = self.level - processed as u32;
            self.next_allowed = self.next_allowed + moved;
        }
    }

    /// Drains the state at `now` and returns the units that can be requested.
    pub fn available(&mut self, now: u64) -> (units: u32)
        ensures
            final(self)@ == old(self)@.drained(now as nat),
            units == old(self)@.available(now as nat),
            units <= old(self)@.capacity,
            old(self)@.wf() ==> final(self)@.wf(),
    {
        self.drain(now);
        self.headroom()
    }

    /// Adds `n` units to the backlog of the bucket as it stands, with no
    /// drain, or refuses and leaves it unchanged.
    pub fn add(&mut self, n: u32) -> (r: Result<(), RateLimitError>)
        ensures
            final(self)@ == old(self)@.added(n as nat),
            r == old(self)@.answer_as_is(n),
    {
        if n == 0 {
            return Ok(());
        }
        if n > self.capacity {
            return Err(RateLimitError::rate_limit_exceeded(n, self.capacity, 0));
        }
        let wanted: u64 = self.level as u64 + n as u64;
        if wanted > self.capacity as u64 {
            let excess: u64 = wanted - self.capacity as u64;
            proof {
                if self.rate@ > 0 {
                    lemma_wait_bounded(self.rate@, excess as nat);
                }
                assert(excess * TICKS_PER_UNIT <= u64::MAX) by (nonlinear_arith)
                    requires
                        excess <= 2 * u32::MAX,
                ;
            }
            let wait: u64 = self.rate.wait_for(excess);
            Err(RateLimitError::rate_limit_exceeded(n, self.headroom(), wait))
        } else {
            self.level = self.level + n;
            Ok(())
        }
    }

    /// Requests `n` units at `now`. A request for nothing is granted and
    /// changes nothing. A request for more than the capacity is refused
    /// outright, with no time to wait, and changes nothing. Any other request
    /// drains the state first; it is granted, and joins the backlog, exactly
    /// where the backlog then stays within the capacity.
    pub fn try_acquire(&mut self, n: u32, now: u64) -> (r: Result<(), RateLimitError>)
        ensures
            final(self)@ == old(self)@.acquired(n as nat, now as nat),
            r == old(self)@.answer(n, now as nat),
            r is Ok <==> old(self)@.admits(n as nat, now as nat),
            old(self)@.wf() ==> final(self)@.wf(),
    {
        if n == 0 {
            return Ok(());
        }
        if n > self.capacity {
            return Err(RateLimitError::rate_limit_exceeded(n, self.capacity, 0));
        }
        self.drain(now);
        self.add(n)
    }

    /// Milliseconds from `now` until a unit can be requested, where none can
    /// be at `now`. The state is read, not drained.
    pub fn time_until_next_unit(&self, now: u64) -> (ms: Option<u64>)
        ensures
            ms == match self@.next_unit_in(now as nat) {
                Some(wait) => Some(clip(wait)),
                None => None,
            },
    {
        let mut ahead = *self;
        ahead.drain(now);
        if ahead.headroom() > 0 {
            return None;
        }
        proof {
            if self.rate@ > 0 {
                lemma_wait_bounded(self.rate@, 1);
            }
        }
        time_until_due(self.next_allowed, self.rate.wait_for(1), now)
    }

    /// Gives the bucket a new capacity and rate at `now`, caps the backlog at
    /// the new capacity, and lets the running interval start no earlier than
    /// `now`.
    pub fn set_rate(&mut self, capacity: u32, rate: Rate, now: u64)
        ensures
            final(self)@ == old(self)@.with_rate(capacity as nat, rate@, now as nat),
    {
        self.capacity = capacity;
        self.rate = rate;
        if self.level == 0 || self.next_allowed < now {
            self.next_allowed = now;
        }
        if self.level > capacity {
            self.level = capacity;
        }
    }

    /// Reconfigures the bucket at `now`. A capacity or a rate of zero is
    /// refused and changes nothing. Otherwise the state is drained under the
    /// old capacity and rate and then given the new ones.
    pub fn update_config(&mut self, capacity: u32, rate: Rate, now: u64) -> (r: Result<
        (),
        RateLimitError,
    >)
        ensures
            capacity > 0 && rate@ > 0 ==> r is Ok && final(self)@ == old(self)@.reconfigured(
                capacity as nat,
                rate@,
                now as nat,
            ),
            capacity == 0 ==> final(self)@ == old(self)@ && (r matches Err(
                RateLimitError::InvalidConfiguration { reason },
            ) && reason@ == burst_reason()),
            capacity > 0 && rate@ == 0 ==> final(self)@ == old(self)@ && (r matches Err(
                RateLimitError::InvalidConfiguration { reason },
            ) && reason@ == leaky_rate_reason()),
    {
        if capacity == 0 {
            return Err(RateLimitError::invalid_config("capacity must be greater than 0"));
        }
        if !rate.is_positive() {
            return Err(RateLimitError::invalid_config("requests_per_second must be positive"));
        }
        self.drain(now);
        self.set_rate(capacity, rate, now);
        Ok(())
    }
}

} // verus!
