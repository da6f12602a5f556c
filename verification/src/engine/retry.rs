//! Retrying a fallible operation: how long to wait after a failure, and
//! when to give up.

use crate::models::step::{BackoffStrategy, RetryConfig};
use vstd::prelude::*;

verus! {

/// No delay between attempts is longer than this many milliseconds.
pub const MAX_DELAY_MS: u64 = 60000;

/// Two to the power `n`.
pub open spec fn pow2(n: nat) -> nat
    decreases n,
{
    if n == 0 {
        1
    } else {
        2 * pow2((n - 1) as nat)
    }
}

/// The delay after the failed attempt number `attempt`, counted from one:
/// the initial delay where the backoff is fixed, the initial delay doubled
/// once per earlier attempt where it is exponential; in both cases at most
/// [`MAX_DELAY_MS`].
pub open spec fn backoff_delay(config: RetryConfig, attempt: nat) -> nat {
    let raw = match config.backoff {
        BackoffStrategy::Fixed => config.initial_delay_ms as nat,
        BackoffStrategy::Exponential => config.initial_delay_ms as nat * pow2(
            (attempt - 1) as nat,
        ),
    };
    if raw <= MAX_DELAY_MS {
        raw
    } else {
        MAX_DELAY_MS as nat
    }
}

/// What follows the failed attempt number `attempt`: the delay before the
/// next attempt, or `None` where the attempts are used up.
pub open spec fn retry_delay(config: RetryConfig, attempt: nat) -> Option<nat> {
    if attempt >= config.max_attempts {
        None
    } else {
        Some(backoff_delay(config, attempt))
    }
}

/// How often an operation is invoked from attempt number `attempt` on, by a
/// caller that invokes it, stops at the first success, and after a failure
/// goes on exactly where `retry_delay` names a delay. `first_success` is the
/// number of the first attempt that succeeds, if any does.
pub open spec fn invocations(config: RetryConfig, first_success: Option<nat>, attempt: nat) -> nat
    decreases config.max_attempts - attempt,
{
    if first_success == Some(attempt) || retry_delay(config, attempt) is None {
        attempt
    } else {
        invocations(config, first_success, attempt + 1)
    }
}

/// Powers of two do not shrink as the exponent grows.
pub proof fn lemma_pow2_monotone(a: nat, b: nat)
    requires
        a <= b,
    ensures
        1 <= pow2(a) <= pow2(b),
    decreases b,
{
    if b > 0 {
        if a == b {
            lemma_pow2_monotone((a - 1) as nat, (b - 1) as nat);
        } else {
            lemma_pow2_monotone(a, (b - 1) as nat);
        }
    }
}

/// Decides how an operation is retried.
#[derive(Debug, Clone, Copy)]
pub struct RetryExecutor {
    config: RetryConfig,
}

impl View for RetryExecutor {
    type V = RetryConfig;

    closed spec fn view(&self) -> RetryConfig {
        self.config
    }
}

impl RetryExecutor {
    /// An executor with the given configuration.
    pub fn new(config: RetryConfig) -> (r: RetryExecutor)
        ensures
            r@ == config,
    {
        RetryExecutor { config }
    }

    /// The delay in milliseconds after the failed attempt number `attempt`,
    /// counted from one.
    pub fn calculate_delay(&self, attempt: u32) -> (r: u64)
        requires
            attempt >= 1,
        ensures
            r == backoff_delay(self@, attempt as nat),
            r <= MAX_DELAY_MS,
    {
        let base = self.config.initial_delay_ms;
        match self.config.backoff {
            BackoffStrategy::Fixed => if base <= MAX_DELAY_MS {
                base
            } else {
                MAX_DELAY_MS
            },
            BackoffStrategy::Exponential => {
                if base == 0 {
                    assert(0 * pow2((attempt - 1) as nat) == 0) by (nonlinear_arith);
                    return 0;
                }
                let mut delay: u64 = base;
                let mut k: u32 = 1;
                assert(pow2(0) == 1);
                assert(delay == base * pow2((k - 1) as nat)) by (nonlinear_arith)
                    requires
                        delay == base,
                        pow2((k - 1) as nat) == 1,
                ;
                while k < attempt && delay <= MAX_DELAY_MS
                    invariant
                        1 <= k <= attempt,
                        base >= 1,
                        delay == base * pow2((k - 1) as nat),
                    decreases attempt - k,
                {
                    assert(base * pow2(k as nat) == 2 * (base * pow2((k - 1) as nat)))
                        by (nonlinear_arith)
                        requires
                            pow2(k as nat) == 2 * pow2((k - 1) as nat),
                    ;
                    delay = delay * 2;
                    k += 1;
                }
                proof {
                    lemma_pow2_monotone((k - 1) as nat, (attempt - 1) as nat);
                    assert(base * pow2((k - 1) as nat) <= base * pow2((attempt - 1) as nat))
                        by (nonlinear_arith)
                        requires
                            pow2((k - 1) as nat) <= pow2((attempt - 1) as nat),
                    ;
                }
                if delay <= MAX_DELAY_MS {
                    delay
                } else {
                    MAX_DELAY_MS
                }
            },
        }
    }

    /// What follows the failed attempt number `attempt`, counted from one:
    /// the delay in milliseconds before the next attempt, or `None` where
    /// the attempts are used up.
    pub fn after_failure(&self, attempt: u32) -> (r: Option<u64>)
        requires
            attempt >= 1,
        ensures
            match r {
                Some(delay) => retry_delay(self@, attempt as nat) == Some(delay as nat),
                None => retry_delay(self@, attempt as nat) is None,
            },
    {
        if attempt >= self.config.max_attempts {
            None
        } else {
            Some(self.calculate_delay(attempt))
        }
    }
}

/// An operation that never succeeds is invoked exactly as often as the
/// configuration allows attempts.
pub proof fn lemma_always_failing_invocations(config: RetryConfig)
    requires
        config.max_attempts >= 1,
    ensures
        invocations(config, None, 1) == config.max_attempts,
{
    lemma_invocations_from(config, None, 1);
}

/// An operation that first succeeds at attempt `k`, within the allowed
/// attempts, is invoked exactly `k` times.
pub proof fn lemma_success_invocations(config: RetryConfig, k: nat)
    requires
        1 <= k <= config.max_attempts,
    ensures
        invocations(config, Some(k), 1) == k,
{
    lemma_invocations_from(config, Some(k), 1);
}

/// From any attempt on, the invocations end at the first success or at the
/// last allowed attempt, whichever comes first.
pub proof fn lemma_invocations_from(config: RetryConfig, first_success: Option<nat>, attempt: nat)
    requires
        1 <= attempt <= config.max_attempts,
        first_success is Some ==> attempt <= first_success->0,
    ensures
        invocations(config, first_success, attempt) == if first_success is Some
            && first_success->0 <= config.max_attempts {
            first_success->0
        } else {
            config.max_attempts as nat
        },
    decreases config.max_attempts - attempt,
{
    if first_success == Some(attempt) || retry_delay(config, attempt) is None {
    } else {
        lemma_invocations_from(config, first_success, attempt + 1);
    }
}

/// With exponential backoff each delay is the initial delay doubled once
/// per earlier attempt, until the cap is reached.
pub proof fn lemma_exponential_series(config: RetryConfig, attempt: nat)
    requires
        config.backoff == BackoffStrategy::Exponential,
        attempt >= 1,
    ensures
        backoff_delay(config, attempt) == if config.initial_delay_ms * pow2((attempt - 1) as nat)
            <= MAX_DELAY_MS {
            config.initial_delay_ms * pow2((attempt - 1) as nat)
        } else {
            MAX_DELAY_MS as int
        },
        backoff_delay(config, attempt) <= backoff_delay(config, attempt + 1),
{
    lemma_pow2_monotone((attempt - 1) as nat, attempt);
    assert(config.initial_delay_ms * pow2((attempt - 1) as nat) <= config.initial_delay_ms * pow2(
        attempt,
    )) by (nonlinear_arith)
        requires
            pow2((attempt - 1) as nat) <= pow2(attempt),
    ;
}

} // verus!
