//! Rates as fixed-point numbers, and the whole-number arithmetic that turns
//! elapsed time into units and units into waiting time.
//!
//! A rate is held in millionths of a unit per second. One millisecond at one
//! millionth per second is a *tick*; a unit is complete after
//! [`TICKS_PER_UNIT`] ticks. All three conversions below are exact quotients of
//! tick counts, so no rounding error accumulates beyond the single floor or
//! ceiling that each of them names.

use vstd::prelude::*;

verus! {

/// Millionths in one unit: the scale of a [`Rate`].
pub const MICROS_PER_UNIT: u64 = 1_000_000;

/// Ticks (milliseconds times millionths per second) in one unit.
pub const TICKS_PER_UNIT: u64 = 1_000_000_000;

/// Whole units that accrue in `ms` milliseconds at `rate` millionths per
/// second: the floor of `ms * rate / TICKS_PER_UNIT`.
pub open spec fn accrued(rate: nat, ms: nat) -> nat {
    (ms * rate) / (TICKS_PER_UNIT as nat)
}

/// The least whole number of milliseconds in which `units` accrue at `rate`:
/// the ceiling of `units * TICKS_PER_UNIT / rate`. Zero for a rate of zero,
/// which has no such time.
pub open spec fn wait_for(rate: nat, units: nat) -> nat {
    if rate == 0 {
        0
    } else {
        ((units * TICKS_PER_UNIT + rate - 1) / (rate as int)) as nat
    }
}

/// The whole milliseconds that `units` account for at `rate`: the floor of
/// `units * TICKS_PER_UNIT / rate`. Zero for a rate of zero.
pub open spec fn span_of(rate: nat, units: nat) -> nat {
    if rate == 0 {
        0
    } else {
        ((units * TICKS_PER_UNIT) / (rate as int)) as nat
    }
}

/// `x` where it fits in 64 bits, the largest 64-bit number where it does not.
pub open spec fn clip(x: nat) -> u64 {
    if x > u64::MAX {
        u64::MAX
    } else {
        x as u64
    }
}

/// Milliseconds from `now` until `step` milliseconds after `start`; nothing
/// where that time has come.
pub open spec fn until_due(start: nat, step: nat, now: nat) -> Option<nat> {
    if start + step <= now {
        None
    } else {
        Some((start + step - now) as nat)
    }
}

/// Milliseconds from `now` until `step` milliseconds after `start`, clipped
/// to 64 bits; nothing where that time has come.
pub fn time_until_due(start: u64, step: u64, now: u64) -> (ms: Option<u64>)
    ensures
        ms == match until_due(start as nat, step as nat, now as nat) {
            Some(wait) => Some(clip(wait)),
            None => None,
        },
{
    if step > u64::MAX - start {
        // Due beyond the last time that can be told.
        let over: u64 = step - (u64::MAX - start);
        if over > now {
            Some(u64::MAX)
        } else {
            Some(u64::MAX - now + over)
        }
    } else {
        let due: u64 = start + step;
        if due > now {
            Some(due - now)
        } else {
            None
        }
    }
}

/// A quotient reaches `k` exactly when the dividend reaches `k` divisors.
pub proof fn lemma_floor_reaches(a: int, d: int, k: int)
    requires
        d > 0,
    ensures
        a / d >= k <==> a >= k * d,
{
    vstd::arithmetic::div_mod::lemma_fundamental_div_mod(a, d);
    vstd::arithmetic::div_mod::lemma_mod_bound(a, d);
    let q = a / d;
    if q >= k {
        assert(d * q >= k * d) by (nonlinear_arith)
            requires
                q >= k,
                d > 0,
        ;
    } else {
        assert(d * q + d <= k * d) by (nonlinear_arith)
            requires
                q + 1 <= k,
                d > 0,
        ;
    }
}

/// A rounded-up quotient stays within `m` exactly when the dividend stays
/// within `m` divisors.
pub proof fn lemma_ceiling_within(b: int, d: int, m: int)
    requires
        d > 0,
    ensures
        (b + d - 1) / d <= m <==> b <= m * d,
{
    lemma_floor_reaches(b + d - 1, d, m + 1);
    assert((m + 1) * d == m * d + d) by (nonlinear_arith);
}

/// A quotient of numbers that are not negative is not negative.
pub proof fn lemma_floor_not_negative(a: int, d: int)
    requires
        a >= 0,
        d > 0,
    ensures
        a / d >= 0,
{
    lemma_floor_reaches(a, d, 0);
}

/// More time never accrues fewer units.
pub proof fn lemma_accrued_monotonic(rate: nat, earlier: nat, later: nat)
    requires
        earlier <= later,
    ensures
        accrued(rate, earlier) <= accrued(rate, later),
{
    let before: int = (earlier * rate) as int;
    let after: int = (later * rate) as int;
    assert(0 <= before <= after) by (nonlinear_arith)
        requires
            earlier <= later,
            before == earlier * rate,
            after == later * rate,
    ;
    lemma_floor_not_negative(before, TICKS_PER_UNIT as int);
    vstd::arithmetic::div_mod::lemma_div_is_ordered(before, after, TICKS_PER_UNIT as int);
}

/// `units` have accrued after `ms` milliseconds exactly when `ms` is at least
/// the waiting time for `units`.
pub proof fn lemma_accrued_reaches(rate: nat, ms: nat, units: nat)
    requires
        rate > 0,
    ensures
        accrued(rate, ms) >= units <==> ms >= wait_for(rate, units),
{
    let ticks: int = (ms * rate) as int;
    let needed: int = units * TICKS_PER_UNIT;
    assert(ticks >= 0 && needed >= 0) by (nonlinear_arith)
        requires
            ticks == ms * rate,
            needed == units * TICKS_PER_UNIT,
    ;
    lemma_floor_not_negative(ticks, TICKS_PER_UNIT as int);
    lemma_floor_not_negative(needed + rate - 1, rate as int);
    lemma_floor_reaches(ticks, TICKS_PER_UNIT as int, units as int);
    lemma_ceiling_within(needed, rate as int, ms as int);
}

/// The time that the accrued units account for is no longer than the time
/// in which they accrued.
pub proof fn lemma_span_within(rate: nat, ms: nat)
    ensures
        span_of(rate, accrued(rate, ms)) <= ms,
{
    if rate > 0 {
        let units = accrued(rate, ms);
        let ticks: int = (ms * rate) as int;
        let spent: int = units * TICKS_PER_UNIT;
        assert(ticks >= 0 && spent >= 0) by (nonlinear_arith)
            requires
                ticks == ms * rate,
                spent == units * TICKS_PER_UNIT,
        ;
        lemma_floor_not_negative(ticks, TICKS_PER_UNIT as int);
        lemma_floor_not_negative(spent, rate as int);
        lemma_floor_reaches(ticks, TICKS_PER_UNIT as int, units as int);
        lemma_floor_reaches(spent, rate as int, ms as int + 1);
        assert((ms as int + 1) * rate == ms * rate + rate) by (nonlinear_arith);
    }
}

/// At a positive rate no unit takes longer than [`TICKS_PER_UNIT`]
/// milliseconds.
pub proof fn lemma_wait_bounded(rate: nat, units: nat)
    requires
        rate > 0,
    ensures
        wait_for(rate, units) <= units * TICKS_PER_UNIT,
{
    let ticks = units * TICKS_PER_UNIT;
    assert(ticks >= 0) by (nonlinear_arith)
        requires
            ticks == units * TICKS_PER_UNIT,
    ;
    lemma_floor_not_negative(ticks + rate - 1, rate as int);
    lemma_ceiling_within(ticks, rate as int, ticks);
    assert(ticks <= ticks * rate) by (nonlinear_arith)
        requires
            rate >= 1,
            ticks >= 0,
    ;
}

/// Where a unit's span is a whole number of milliseconds, the span of any
/// number of units is that many times as long, and is also their waiting
/// time: nothing is rounded.
pub proof fn lemma_whole_span(rate: nat, units: nat)
    requires
        rate > 0,
        (TICKS_PER_UNIT as nat) % rate == 0,
    ensures
        span_of(rate, units) == units * ((TICKS_PER_UNIT as nat) / rate),
        wait_for(rate, units) == span_of(rate, units),
{
    let d = rate as int;
    let each = (TICKS_PER_UNIT as int) / d;
    vstd::arithmetic::div_mod::lemma_fundamental_div_mod(TICKS_PER_UNIT as int, d);
    lemma_floor_not_negative(TICKS_PER_UNIT as int, d);
    let whole: int = units * each;
    assert(units * TICKS_PER_UNIT == d * whole) by (nonlinear_arith)
        requires
            TICKS_PER_UNIT == d * each,
            whole == units * each,
    ;
    vstd::arithmetic::div_mod::lemma_div_multiples_vanish_fancy(whole, 0, d);
    vstd::arithmetic::div_mod::lemma_div_multiples_vanish_fancy(whole, d - 1, d);
    assert(whole >= 0) by (nonlinear_arith)
        requires
            whole == units * each,
            each >= 0,
    ;
}

/// A rate, in millionths of a unit per second.
///
/// A rate of zero is representable and is the only rate that is not
/// positive; the limiters refuse it wherever a rate is configured.
#[derive(Clone, Copy, Debug, PartialEq, Eq, Structural)]
pub struct Rate {
    micro: u64,
}

impl View for Rate {
    type V = nat;

    closed spec fn view(&self) -> nat {
        self.micro as nat
    }
}

impl Rate {
    /// The rate of `micro` millionths of a unit per second.
    pub fn from_micro(micro: u64) -> (r: Rate)
        ensures
            r@ == micro,
    {
        Rate { micro }
    }

    /// The rate of `units` whole units per second.
    pub fn per_second(units: u32) -> (r: Rate)
        ensures
            r@ == units * MICROS_PER_UNIT,
    {
        Rate { micro: (units as u64) * MICROS_PER_UNIT }
    }

    /// The rate in millionths of a unit per second.
    pub fn micro(&self) -> (m: u64)
        ensures
            m == self@,
    {
        self.micro
    }

    /// Whether the rate is above zero.
    pub fn is_positive(&self) -> (b: bool)
        ensures
            b == (self@ > 0),
    {
        self.micro > 0
    }

    /// Whole units that accrue in `ms` milliseconds, clipped to 64 bits.
    pub fn accrued(&self, ms: u64) -> (units: u64)
        ensures
            units == clip(accrued(self@, ms as nat)),
    {
        assert(ms * self.micro <= u64::MAX * u64::MAX) by (nonlinear_arith)
            requires
                0 <= ms <= u64::MAX,
                0 <= self.micro <= u64::MAX,
        ;
        let ticks: u128 = (ms as u128) * (self.micro as u128);
        let units: u128 = ticks / (TICKS_PER_UNIT as u128);
        if units > u64::MAX as u128 {
            u64::MAX
        } else {
            units as u64
        }
    }

    /// The least whole number of milliseconds in which `units` accrue,
    /// clipped to 64 bits; zero for a rate of zero.
    pub fn wait_for(&self, units: u64) -> (ms: u64)
        ensures
            ms == clip(wait_for(self@, units as nat)),
    {
        if self.micro == 0 {
            return 0;
        }
        assert(units * TICKS_PER_UNIT <= u64::MAX * TICKS_PER_UNIT) by (nonlinear_arith)
            requires
                0 <= units <= u64::MAX,
        ;
        let ticks: u128 = (units as u128) * (TICKS_PER_UNIT as u128);
        let ms: u128 = (ticks + (self.micro as u128 - 1)) / (self.micro as u128);
        if ms > u64::MAX as u128 {
            u64::MAX
        } else {
            ms as u64
        }
    }

    /// The whole milliseconds that `units` account for, clipped to 64 bits;
    /// zero for a rate of zero.
    pub fn span_of(&self, units: u64) -> (ms: u64)
        ensures
            ms == clip(span_of(self@, units as nat)),
    {
        if self.micro == 0 {
            return 0;
        }
        assert(units * TICKS_PER_UNIT <= u64::MAX * TICKS_PER_UNIT) by (nonlinear_arith)
            requires
                0 <= units <= u64::MAX,
        ;
        let ticks: u128 = (units as u128) * (TICKS_PER_UNIT as u128);
        let ms: u128 = ticks / (self.micro as u128);
        if ms > u64::MAX as u128 {
            u64::MAX
        } else {
            ms as u64
        }
    }
}

} // verus!
