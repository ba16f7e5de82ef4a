//! What a limiter answers when it does not admit a request or a configuration.

use vstd::prelude::*;
use vstd::string::StringExecFns;

verus! {

/// The character of one decimal digit.
pub open spec fn digit(d: nat) -> char {
    if d == 0 {
        '0'
    } else if d == 1 {
        '1'
    } else if d == 2 {
        '2'
    } else if d == 3 {
        '3'
    } else if d == 4 {
        '4'
    } else if d == 5 {
        '5'
    } else if d == 6 {
        '6'
    } else if d == 7 {
        '7'
    } else if d == 8 {
        '8'
    } else {
        '9'
    }
}

/// The decimal numeral of `n`, without sign and without leading zeros.
pub open spec fn decimal(n: nat) -> Seq<char>
    decreases n,
{
    if n < 10 {
        seq![digit(n)]
    } else {
        decimal(n / 10).push(digit(n % 10))
    }
}

/// The text of one decimal digit.
fn digit_text(d: u64) -> (text: &'static str)
    requires
        d < 10,
    ensures
        text@ == seq![digit(d as nat)],
{
    proof {
        reveal_strlit("0");
        reveal_strlit("1");
        reveal_strlit("2");
        reveal_strlit("3");
        reveal_strlit("4");
        reveal_strlit("5");
        reveal_strlit("6");
        reveal_strlit("7");
        reveal_strlit("8");
        reveal_strlit("9");
    }
    let text = if d == 0 {
        "0"
    } else if d == 1 {
        "1"
    } else if d == 2 {
        "2"
    } else if d == 3 {
        "3"
    } else if d == 4 {
        "4"
    } else if d == 5 {
        "5"
    } else if d == 6 {
        "6"
    } else if d == 7 {
        "7"
    } else if d == 8 {
        "8"
    } else {
        "9"
    };
    assert(text@ =~= seq![digit(d as nat)]);
    text
}

/// Appends the decimal numeral of `n` to `out`.
fn push_decimal(out: &mut String, n: u64)
    ensures
        final(out)@ == old(out)@ + decimal(n as nat),
    decreases n,
{
    if n >= 10 {
        push_decimal(out, n / 10);
    }
    out.append(digit_text(n % 10));
    assert(final(out)@ =~= old(out)@ + decimal(n as nat));
}

/// Why a limiter refused.
#[derive(Debug, Clone, Copy, PartialEq, Eq)]
pub enum RateLimitError {
    /// More units were requested than the limiter can grant now.
    RateLimitExceeded {
        /// The units that were requested.
        requested: u32,
        /// The units that could have been granted.
        available: u32,
        /// Milliseconds after which the same request can succeed; zero where
        /// waiting does not help.
        retry_after_ms: u64,
    },
    /// A capacity or rate that is not positive.
    InvalidConfiguration {
        /// What was wrong with the configuration.
        reason: &'static str,
    },
}

impl RateLimitError {
    /// The refusal of `requested` units while `available` could be had,
    /// with the time to wait.
    pub fn rate_limit_exceeded(requested: u32, available: u32, retry_after_ms: u64) -> (e: Self)
        ensures
            e == (RateLimitError::RateLimitExceeded { requested, available, retry_after_ms }),
    {
        RateLimitError::RateLimitExceeded { requested, available, retry_after_ms }
    }

    /// The refusal of a configuration, for the given reason.
    pub fn invalid_config(reason: &'static str) -> (e: Self)
        ensures
            e == (RateLimitError::InvalidConfiguration { reason }),
    {
        RateLimitError::InvalidConfiguration { reason }
    }

    /// Whether this is the refusal of a request.
    pub fn is_rate_limit_exceeded(&self) -> (b: bool)
        ensures
            b == (self is RateLimitExceeded),
    {
        match self {
            RateLimitError::RateLimitExceeded { .. } => true,
            RateLimitError::InvalidConfiguration { .. } => false,
        }
    }

    /// Whether this is the refusal of a configuration.
    pub fn is_invalid_config(&self) -> (b: bool)
        ensures
            b == (self is InvalidConfiguration),
    {
        match self {
            RateLimitError::RateLimitExceeded { .. } => false,
            RateLimitError::InvalidConfiguration { .. } => true,
        }
    }

    /// The time to wait that a refused request carries; nothing for a
    /// refused configuration.
    pub fn retry_after_ms(&self) -> (ms: Option<u64>)
        ensures
            ms == match *self {
                RateLimitError::RateLimitExceeded { retry_after_ms, .. } => Some(retry_after_ms),
                RateLimitError::InvalidConfiguration { .. } => None,
            },
    {
        match self {
            RateLimitError::RateLimitExceeded { retry_after_ms, .. } => Some(*retry_after_ms),
            RateLimitError::InvalidConfiguration { .. } => None,
        }
    }

    /// The message of this error, character by character.
    pub open spec fn message(self) -> Seq<char> {
        match self {
            RateLimitError::RateLimitExceeded { requested, available, retry_after_ms } => {
                "rate limit exceeded: requested "@ + decimal(requested as nat)
                    + " tokens, but only "@ + decimal(available as nat)
                    + " available (retry after "@ + decimal(retry_after_ms as nat) + "ms)"@
            },
            RateLimitError::InvalidConfiguration { reason } => {
                "invalid configuration: "@ + reason@
            },
        }
    }

    /// The message of this error as text.
    pub fn to_string(&self) -> (text: String)
        ensures
            text@ == self.message(),
    {
        match self {
            RateLimitError::RateLimitExceeded { requested, available, retry_after_ms } => {
                let mut text = String::from_str("rate limit exceeded: requested ");
                push_decimal(&mut text, *requested as u64);
                text.append(" tokens, but only ");
                push_decimal(&mut text, *available as u64);
                text.append(" available (retry after ");
                push_decimal(&mut text, *retry_after_ms);
                text.append("ms)");
                text
            },
            RateLimitError::InvalidConfiguration { reason } => {
                let mut text = String::from_str("invalid configuration: ");
                text.append(reason);
                text
            },
        }
    }
}

} // verus!
