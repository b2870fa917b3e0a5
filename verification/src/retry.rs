//! Timeout and exponential-backoff retry decisions.
//!
//! The retry loop itself awaits the operation and sleeps between attempts;
//! what it decides after each attempt is [`RetryPolicy::next_step`], and what
//! a timed-out attempt counts as is [`RetryPolicy::attempt_result`].

use vstd::arithmetic::power::pow;
use vstd::prelude::*;

use crate::client_error::{client_error_retryable, ClientError};
use crate::time::{max_nanos, nat_min, Duration};

verus! {

/// Configuration for retrying a fallible operation.
#[derive(Debug, Clone, Copy)]
pub struct RetryPolicy {
    /// Maximum number of *additional* attempts after the first.
    pub max_retries: u32,
    /// Delay before the first retry.
    pub base_delay: Duration,
    /// Upper bound on any single backoff delay.
    pub max_delay: Duration,
    /// Multiplier applied to the delay after each attempt.
    pub multiplier: u32,
    /// Per-attempt timeout. `None` disables the timeout.
    pub per_attempt_timeout: Option<Duration>,
}

/// The default policy: three retries, backoff from 50 ms doubling up to
/// 2 s, and a 5 s timeout per attempt.
pub open spec fn is_default_policy(p: RetryPolicy) -> bool {
    &&& p.max_retries == 3
    &&& p.base_delay@ == 50_000_000
    &&& p.max_delay@ == 2_000_000_000
    &&& p.multiplier == 2
    &&& p.per_attempt_timeout matches Some(t) && t@ == 5_000_000_000
}

/// `base^exp`, saturating at `u32::MAX`.
pub open spec fn saturating_pow_u32(base: u32, exp: u32) -> int {
    if pow(base as int, exp as nat) > u32::MAX {
        u32::MAX as int
    } else {
        pow(base as int, exp as nat)
    }
}

/// The backoff before retrying after attempt `attempt` (counted from 0):
/// `base_delay × max(multiplier^attempt, 1)`, both saturating, capped at
/// `max_delay`; in nanoseconds.
pub open spec fn backoff_nanos(p: RetryPolicy, attempt: u32) -> nat {
    let factor = saturating_pow_u32(p.multiplier, attempt);
    let factor = if factor >= 1 { factor as nat } else { 1 };
    nat_min(nat_min(p.base_delay@ * factor, max_nanos()), p.max_delay@)
}

/// Whether the loop retries after attempt `attempt` failed with `e`:
/// only retryable errors, and only while retries are left.
pub open spec fn should_retry(p: RetryPolicy, attempt: int, e: ClientError) -> bool {
    client_error_retryable(e) && attempt < p.max_retries
}

/// What the retry loop does after an attempt.
#[derive(Debug)]
pub enum RetryStep<T> {
    /// Stop and hand this result to the caller.
    Finish(Result<T, ClientError>),
    /// Sleep for `delay`, then make attempt number `next_attempt`.
    Retry {
        /// How long to wait first.
        delay: Duration,
        /// The number of the next attempt (counted from 0).
        next_attempt: u32,
    },
}

/// Calls `u32::saturating_pow`, which by its documentation computes
/// `base^exp`, saturating at `u32::MAX` instead of overflowing.
#[verifier::external_body]
fn u32_saturating_pow(base: u32, exp: u32) -> (r: u32)
    ensures
        r == saturating_pow_u32(base, exp),
{
    base.saturating_pow(exp)
}

impl Default for RetryPolicy {
    fn default() -> (p: Self)
        ensures
            is_default_policy(p),
    {
        RetryPolicy {
            max_retries: 3,
            base_delay: Duration::from_millis(50),
            max_delay: Duration::from_secs(2),
            multiplier: 2,
            per_attempt_timeout: Some(Duration::from_secs(5)),
        }
    }
}

impl RetryPolicy {
    /// A policy that performs exactly one attempt (no retries, no timeout).
    pub fn none() -> (p: Self)
        ensures
            p.max_retries == 0,
            p.base_delay@ == 0,
            p.max_delay@ == 0,
            p.multiplier == 1,
            p.per_attempt_timeout is None,
    {
        RetryPolicy {
            max_retries: 0,
            base_delay: Duration::zero(),
            max_delay: Duration::zero(),
            multiplier: 1,
            per_attempt_timeout: None,
        }
    }

    /// The backoff before retrying after attempt `attempt`.
    pub fn delay_for(&self, attempt: u32) -> (d: Duration)
        ensures
            d@ == backoff_nanos(*self, attempt),
    {
        let factor = u32_saturating_pow(self.multiplier, attempt);
        let factor = if factor >= 1 { factor } else { 1 };
        let scaled = self.base_delay.saturating_mul(factor);
        scaled.min(self.max_delay)
    }

    /// What an attempt counts as: its own result when it completed, or a
    /// timeout error carrying the limit in milliseconds when it did not.
    pub fn attempt_result<T>(&self, completed: Option<Result<T, ClientError>>) -> (r: Result<
        T,
        ClientError,
    >)
        requires
            completed is None ==> self.per_attempt_timeout is Some,
        ensures
            match completed {
                Some(res) => r == res,
                None => r == Err::<T, ClientError>(
                    ClientError::Timeout {
                        elapsed_ms: (self.per_attempt_timeout->0@ / 1_000_000) as u128,
                    },
                ),
            },
    {
        match completed {
            Some(res) => res,
            None => {
                let limit = self.per_attempt_timeout.unwrap();
                Err(ClientError::Timeout { elapsed_ms: limit.as_millis() })
            },
        }
    }

    /// The decision after attempt `attempt` (counted from 0) gave `result`:
    /// a success or a non-retryable error finishes, and so does a retryable
    /// error once `max_retries` retries are spent; otherwise retry after the
    /// backoff.
    pub fn next_step<T>(&self, attempt: u32, result: Result<T, ClientError>) -> (step: RetryStep<T>)
        ensures
            match result {
                Ok(v) => step == RetryStep::Finish(Ok::<T, ClientError>(v)),
                Err(e) => if should_retry(*self, attempt as int, e) {
                    step matches RetryStep::Retry { delay, next_attempt } && delay@ == backoff_nanos(
                        *self,
                        attempt,
                    ) && next_attempt == attempt + 1
                } else {
                    step == RetryStep::Finish(Err::<T, ClientError>(e))
                },
            },
    {
        match result {
            Ok(v) => RetryStep::Finish(Ok(v)),
            Err(e) => {
                if e.is_retryable() && attempt < self.max_retries {
                    RetryStep::Retry { delay: self.delay_for(attempt), next_attempt: attempt + 1 }
                } else {
                    RetryStep::Finish(Err(e))
                }
            },
        }
    }
}

/// Drives the retry decisions over the results of successive attempts,
/// starting at attempt `attempt`: the number of attempts made when the loop
/// stops, and its final result (`None` when the results ran out first).
pub open spec fn drive<T>(p: RetryPolicy, results: Seq<Result<T, ClientError>>, attempt: nat) -> (
    nat,
    Option<Result<T, ClientError>>,
)
    decreases results.len() - attempt,
{
    if attempt >= results.len() {
        (attempt, None)
    } else {
        match results[attempt as int] {
            Ok(v) => (attempt + 1, Some(Ok(v))),
            Err(e) => if should_retry(p, attempt as int, e) {
                drive(p, results, attempt + 1)
            } else {
                (attempt + 1, Some(Err(e)))
            },
        }
    }
}

/// The loop never makes more than `max_retries + 1` attempts.
pub proof fn lemma_attempts_bounded<T>(p: RetryPolicy, results: Seq<Result<T, ClientError>>, attempt: nat)
    requires
        attempt <= p.max_retries,
    ensures
        drive(p, results, attempt).0 <= p.max_retries + 1,
    decreases results.len() - attempt,
{
    if attempt < results.len() {
        if let Err(e) = results[attempt as int] {
            if should_retry(p, attempt as int, e) {
                lemma_attempts_bounded(p, results, attempt + 1);
            }
        }
    }
}

/// When every attempt fails with a retryable error, the loop gives up after
/// exactly `max_retries + 1` attempts with the last error.
pub proof fn lemma_gives_up_after_max_retries<T>(
    p: RetryPolicy,
    results: Seq<Result<T, ClientError>>,
    attempt: nat,
)
    requires
        attempt <= p.max_retries,
        results.len() > p.max_retries,
        forall|i: int|
            0 <= i <= p.max_retries ==> (#[trigger] results[i] matches Err(e) && client_error_retryable(e)),
    ensures
        drive(p, results, attempt) == (
            (p.max_retries + 1) as nat,
            Some(results[p.max_retries as int]),
        ),
    decreases p.max_retries - attempt,
{
    assert(results[attempt as int] matches Err(e) && client_error_retryable(e));
    if attempt < p.max_retries {
        lemma_gives_up_after_max_retries(p, results, attempt + 1);
    }
}

/// When the first `k` attempts fail with retryable errors and attempt `k`
/// succeeds, with `k` within the retry budget, the loop returns that success
/// after `k + 1` attempts.
pub proof fn lemma_succeeds_after_retryable_failures<T>(
    p: RetryPolicy,
    results: Seq<Result<T, ClientError>>,
    k: nat,
    attempt: nat,
)
    requires
        attempt <= k <= p.max_retries,
        k < results.len(),
        results[k as int] is Ok,
        forall|i: int| 0 <= i < k ==> (#[trigger] results[i] matches Err(e) && client_error_retryable(e)),
    ensures
        drive(p, results, attempt) == (k + 1, Some(results[k as int])),
    decreases k - attempt,
{
    if attempt < k {
        assert(results[attempt as int] matches Err(e) && client_error_retryable(e));
        lemma_succeeds_after_retryable_failures(p, results, k, attempt + 1);
    }
}

/// An error that is not retryable ends the loop at once.
pub proof fn lemma_permanent_error_stops<T>(
    p: RetryPolicy,
    results: Seq<Result<T, ClientError>>,
    attempt: nat,
)
    requires
        attempt < results.len(),
        results[attempt as int] matches Err(e) && !client_error_retryable(e),
    ensures
        drive(p, results, attempt) == (attempt + 1, Some(results[attempt as int])),
{
}

/// Every backoff is at most `max_delay`.
pub proof fn lemma_backoff_capped(p: RetryPolicy, attempt: u32)
    ensures
        backoff_nanos(p, attempt) <= p.max_delay@,
{
}

/// With a multiplier of at least one, backoffs never shrink from one attempt
/// to the next.
pub proof fn lemma_backoff_nondecreasing(p: RetryPolicy, a: u32, b: u32)
    requires
        p.multiplier >= 1,
        a <= b,
    ensures
        backoff_nanos(p, a) <= backoff_nanos(p, b),
{
    vstd::arithmetic::power::lemma_pow_increases(p.multiplier as nat, a as nat, b as nat);
    vstd::arithmetic::power::lemma_pow_positive(p.multiplier as int, a as nat);
    let fa = saturating_pow_u32(p.multiplier, a);
    let fb = saturating_pow_u32(p.multiplier, b);
    assert(1 <= fa <= fb);
    let base = p.base_delay@;
    assert(base * (fa as nat) <= base * (fb as nat)) by (nonlinear_arith)
        requires
            fa <= fb,
            fa >= 1,
    ;
}

proof fn lemma_pow_of_zero_or_one(m: int, e: nat)
    requires
        0 <= m <= 1,
    ensures
        0 <= pow(m, e) <= 1,
        m == 1 ==> pow(m, e) == 1,
        e == 0 ==> pow(m, e) == 1,
    decreases e,
{
    reveal(pow);
    if e > 0 {
        lemma_pow_of_zero_or_one(m, (e - 1) as nat);
    }
}

/// Every backoff waits at least the base delay, unless the cap is lower,
/// then exactly the cap: `backoff >= min(base_delay, max_delay)`.
pub proof fn lemma_backoff_at_least_base(p: RetryPolicy, attempt: u32)
    requires
        p.base_delay@ <= max_nanos(),
        p.max_delay@ <= max_nanos(),
    ensures
        backoff_nanos(p, attempt) >= (if p.base_delay@ <= p.max_delay@ {
            p.base_delay@
        } else {
            p.max_delay@
        }),
{
    let f = saturating_pow_u32(p.multiplier, attempt);
    let f = if f >= 1 { f as nat } else { 1 };
    assert(p.base_delay@ * f >= p.base_delay@) by (nonlinear_arith)
        requires
            f >= 1,
    ;
}

/// With a multiplier of zero or one the backoff is the same at every
/// attempt: the base delay, or the cap when the cap is lower.
pub proof fn lemma_flat_backoff(p: RetryPolicy, attempt: u32)
    requires
        p.multiplier <= 1,
        p.base_delay@ <= max_nanos(),
        p.max_delay@ <= max_nanos(),
    ensures
        backoff_nanos(p, attempt) == (if p.base_delay@ <= p.max_delay@ {
            p.base_delay@
        } else {
            p.max_delay@
        }),
{
    lemma_pow_of_zero_or_one(p.multiplier as int, attempt as nat);
    let f = saturating_pow_u32(p.multiplier, attempt);
    let f = if f >= 1 { f as nat } else { 1 };
    assert(f == 1);
    assert(p.base_delay@ * f == p.base_delay@);
}

/// Backoff is exponential: while the cap and the saturation of the factor
/// are not reached, the backoff after attempt `a + 1` is `multiplier` times
/// the backoff after attempt `a`.
pub proof fn lemma_backoff_scales_by_multiplier(p: RetryPolicy, a: u32)
    requires
        p.multiplier >= 1,
        a < u32::MAX,
        pow(p.multiplier as int, (a + 1) as nat) <= u32::MAX,
        p.base_delay@ <= max_nanos(),
        p.max_delay@ <= max_nanos(),
        p.multiplier * backoff_nanos(p, a) <= p.max_delay@,
    ensures
        backoff_nanos(p, (a + 1) as u32) == p.multiplier * backoff_nanos(p, a),
{
    let m = p.multiplier as int;
    let base = p.base_delay@ as int;
    let maxd = p.max_delay@ as int;
    vstd::arithmetic::power::lemma_pow_positive(m, a as nat);
    vstd::arithmetic::power::lemma_pow_increases(m as nat, a as nat, (a + 1) as nat);
    assert(pow(m, (a + 1) as nat) == m * pow(m, a as nat)) by {
        reveal(pow);
    }
    let fa = pow(m, a as nat);
    let fb = pow(m, (a + 1) as nat);
    assert(saturating_pow_u32(p.multiplier, a) == fa);
    assert(saturating_pow_u32(p.multiplier, (a + 1) as u32) == fb);
    let x = base * fa;
    assert(base * fb == m * x) by (nonlinear_arith)
        requires
            fb == m * fa,
            x == base * fa,
    ;
    assert(x >= 0 && m * x >= 0) by (nonlinear_arith)
        requires
            base >= 0,
            fa >= 1,
            m >= 1,
            x == base * fa,
    ;
    assert(p.base_delay@ * (fa as nat) == x);
    assert(p.base_delay@ * (fb as nat) == m * x);
    assert(backoff_nanos(p, (a + 1) as u32) == nat_min(nat_min((m * x) as nat, max_nanos()), p.max_delay@));
    assert(backoff_nanos(p, a) == nat_min(nat_min(x as nat, max_nanos()), p.max_delay@));
    if x <= maxd {
        assert(backoff_nanos(p, a) == x);
        assert(p.multiplier * backoff_nanos(p, a) == m * x);
        assert(m * x <= maxd);
        assert(backoff_nanos(p, (a + 1) as u32) == m * x);
    } else {
        assert(backoff_nanos(p, a) == maxd);
        assert(m * maxd <= maxd);
        if maxd > 0 {
            assert(m == 1) by (nonlinear_arith)
                requires
                    m * maxd <= maxd,
                    maxd > 0,
                    m >= 1,
            ;
            assert(m * maxd == maxd) by (nonlinear_arith)
                requires
                    m == 1,
            ;
        } else {
            assert(m * maxd == 0) by (nonlinear_arith)
                requires
                    maxd == 0,
            ;
        }
        assert(m * x >= x) by (nonlinear_arith)
            requires
                m >= 1,
                x >= 0,
        ;
        assert(backoff_nanos(p, (a + 1) as u32) == maxd);
        assert(p.multiplier * backoff_nanos(p, a) == m * maxd);
        assert(m * maxd == maxd);
    }
    assert(backoff_nanos(p, (a + 1) as u32) == p.multiplier * backoff_nanos(p, a));
}

} // verus!
