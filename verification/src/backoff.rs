//! The delays between attempts to open the session: exponential back-off
//! with a cap, and an optional limit on the number of retries.

use std::time::Duration;
use tokio_retry::strategy::ExponentialBackoff;
use vstd::arithmetic::power::{lemma0_pow, lemma1_pow, lemma_pow1, lemma_pow_increases, pow};
use vstd::arithmetic::power2::{lemma2_to64, lemma_pow2, pow2};
use vstd::prelude::*;

verus! {

/// After this many failures the delay of every capped back-off has reached
/// its final value.
pub const SETTLED_AFTER: u64 = 64;

/// The delay in milliseconds before the retry that follows the
/// `failures`-th failed attempt: the base to the power of the number of past
/// attempts, and no more than the cap.
pub open spec fn capped_power(base_ms: u64, max_ms: u64, failures: nat) -> int {
    if pow(base_ms as int, failures) <= max_ms {
        pow(base_ms as int, failures)
    } else {
        max_ms as int
    }
}

/// The `skipped + 1`-th delay, in milliseconds, that tokio-retry's
/// `ExponentialBackoff::from_millis(base_ms)` hands out through
/// `Iterator::next` once `max_delay` is set to `max_ms` milliseconds.
///
/// The strategy starts at the base, multiplies by the base (saturating) after
/// each delay it hands out, hands out the cap in place of any delay above
/// it, and never ends. The contract claims what follows from that: there is
/// a delay, and it is the base to the power `skipped + 1` where that is no
/// more than the cap, the cap otherwise.
#[verifier::external_body]
fn exponential_delay(base_ms: u64, max_ms: u64, skipped: usize) -> (delay: Option<u64>)
    requires
        skipped < SETTLED_AFTER,
    ensures
        delay is Some,
        delay->0 == capped_power(base_ms, max_ms, (skipped + 1) as nat),
{
    let mut strategy = ExponentialBackoff::from_millis(base_ms).max_delay(
        Duration::from_millis(max_ms),
    );
    match strategy.nth(skipped) {
        Some(delay) => Some(delay.as_millis() as u64),
        None => None,
    }
}

/// What to do after a failed attempt.
#[derive(Clone, Copy, Debug, PartialEq, Eq, Structural)]
pub enum RetryDecision {
    /// Wait this many milliseconds, then try again.
    RetryAfter { millis: u64 },
    /// Stop trying.
    GiveUp,
}

/// How attempts to open the session are retried.
#[derive(Clone, Copy, Debug, PartialEq, Eq, Structural)]
pub struct RetryPolicy {
    /// The delay after the first failure, and the base of the powers.
    pub initial_delay_ms: u64,
    /// No delay is longer than this.
    pub max_delay_ms: u64,
    /// How many retries are made before giving up; `None` for no limit.
    pub retry_limit: Option<u64>,
}

impl RetryPolicy {
    /// The delay before the retry that follows the `failures`-th failure; 0
    /// while nothing has failed.
    pub open spec fn delay_spec(self, failures: nat) -> int {
        if failures == 0 {
            0
        } else {
            capped_power(self.initial_delay_ms, self.max_delay_ms, failures)
        }
    }

    /// What follows the `failures`-th failure: another attempt after the
    /// delay, unless the limit of retries is used up.
    pub open spec fn decision_spec(self, failures: u64) -> RetryDecision {
        match self.retry_limit {
            Some(limit) if failures > limit => RetryDecision::GiveUp,
            _ => RetryDecision::RetryAfter { millis: self.delay_spec(failures as nat) as u64 },
        }
    }

    /// Delays from 500 ms up to 20 s, without a limit on the retries.
    pub fn standard() -> (policy: RetryPolicy)
        ensures
            policy == (RetryPolicy {
                initial_delay_ms: 500,
                max_delay_ms: 20_000,
                retry_limit: None,
            }),
    {
        RetryPolicy { initial_delay_ms: 500, max_delay_ms: 20_000, retry_limit: None }
    }

    /// The delay in milliseconds before the retry that follows the
    /// `failures`-th failure.
    pub fn delay_after(&self, failures: u64) -> (millis: u64)
        ensures
            millis == self.delay_spec(failures as nat),
            millis <= self.max_delay_ms,
    {
        if failures == 0 {
            return 0;
        }
        let settled: u64 = if failures < SETTLED_AFTER {
            failures
        } else {
            SETTLED_AFTER
        };
        proof {
            if failures >= SETTLED_AFTER {
                lemma_delay_settles(self.initial_delay_ms, self.max_delay_ms, failures as nat);
            }
        }
        let skipped: usize = (settled - 1) as usize;
        match exponential_delay(self.initial_delay_ms, self.max_delay_ms, skipped) {
            Some(millis) => millis,
            None => self.max_delay_ms,
        }
    }

    /// What follows the `failures`-th failure.
    pub fn decide(&self, failures: u64) -> (decision: RetryDecision)
        ensures
            decision == self.decision_spec(failures),
    {
        match self.retry_limit {
            Some(limit) if failures > limit => RetryDecision::GiveUp,
            _ => RetryDecision::RetryAfter { millis: self.delay_after(failures) },
        }
    }
}

/// A base of at least 2 to the power `e` is at least 2 to the power `e`.
proof fn lemma_pow_at_least_pow2(base: int, e: nat)
    requires
        base >= 2,
    ensures
        pow(base, e) >= pow2(e),
        pow2(e) > 0,
    decreases e,
{
    reveal(pow);
    reveal(pow2);
    lemma_pow2(e);
    if e > 0 {
        lemma_pow_at_least_pow2(base, (e - 1) as nat);
        lemma_pow2((e - 1) as nat);
        let x = pow(base, (e - 1) as nat);
        let y = pow(2, (e - 1) as nat);
        assert(base * x >= 2 * y) by (nonlinear_arith)
            requires
                base >= 2,
                x >= y,
                y > 0,
        ;
    }
}

/// From the 64th failure on the delay no longer changes.
pub proof fn lemma_delay_settles(base_ms: u64, max_ms: u64, failures: nat)
    requires
        failures >= SETTLED_AFTER,
    ensures
        capped_power(base_ms, max_ms, failures) == capped_power(
            base_ms,
            max_ms,
            SETTLED_AFTER as nat,
        ),
{
    if base_ms == 0 {
        lemma0_pow(failures);
        lemma0_pow(64);
    } else if base_ms == 1 {
        lemma1_pow(failures);
        lemma1_pow(64);
    } else {
        lemma_pow_at_least_pow2(base_ms as int, 64);
        lemma2_to64();
        lemma_pow_increases(base_ms as nat, 64, failures);
    }
}

/// No delay is longer than the cap, and none is negative.
pub proof fn law_delay_is_bounded(policy: RetryPolicy, failures: nat)
    ensures
        0 <= policy.delay_spec(failures) <= policy.max_delay_ms,
{
    if failures > 0 {
        if policy.initial_delay_ms > 0 {
            vstd::arithmetic::power::lemma_pow_positive(policy.initial_delay_ms as int, failures);
        } else {
            lemma0_pow(failures);
        }
    }
}

/// The delays never shrink from one failure to the next.
pub proof fn law_delay_never_shrinks(policy: RetryPolicy, earlier: nat, later: nat)
    requires
        earlier <= later,
    ensures
        policy.delay_spec(earlier) <= policy.delay_spec(later),
{
    law_delay_is_bounded(policy, later);
    if earlier > 0 {
        if policy.initial_delay_ms > 0 {
            lemma_pow_increases(policy.initial_delay_ms as nat, earlier, later);
        } else {
            lemma0_pow(earlier);
            lemma0_pow(later);
        }
    }
}

/// The standard policy waits 500 ms after the first failure and 20 s after
/// every later one.
pub proof fn law_standard_delays(failures: nat)
    requires
        failures >= 1,
    ensures
        ({
            let policy = RetryPolicy {
                initial_delay_ms: 500,
                max_delay_ms: 20_000,
                retry_limit: None,
            };
            policy.delay_spec(failures) == if failures == 1 {
                500int
            } else {
                20_000int
            }
        }),
{
    lemma_pow1(500);
    if failures >= 2 {
        reveal_with_fuel(pow, 3);
        assert(pow(500, 2) == 250_000);
        lemma_pow_increases(500, 2, failures);
    }
}

} // verus!
