//! Retry policy: how often a failed call is repeated and how long to wait
//! between attempts.

use vstd::prelude::*;
use vstd::arithmetic::power2::{pow2, lemma_pow2_unfold, lemma_pow2_strictly_increases, lemma2_to64};
use vstd::arithmetic::mul::lemma_mul_inequality;

use crate::duration::{Duration, millis_to_nanos, secs_to_nanos};
use crate::error::{Error, kind_of, kind_is_retryable};

verus! {

/// Retry policy for operations.
#[derive(Debug)]
pub struct RetryPolicy {
    /// Maximum attempts (including the first call).
    pub max_attempts: usize,
    /// Base backoff duration.
    pub base_delay: Duration,
    /// Maximum backoff duration.
    pub max_delay: Duration,
    /// Whether to apply full jitter.
    pub jitter: bool,
}

impl Clone for RetryPolicy {
    fn clone(&self) -> (r: Self)
        ensures
            r == *self,
    {
        RetryPolicy {
            max_attempts: self.max_attempts,
            base_delay: self.base_delay,
            max_delay: self.max_delay,
            jitter: self.jitter,
        }
    }
}

/// What to do after an attempt has failed.
#[derive(Debug, Clone, Copy, PartialEq, Eq)]
pub enum RetryStep {
    /// Wait for the given span, then try again.
    Retry(Duration),
    /// Report the failure to the caller.
    GiveUp,
}

/// The smaller of two numbers.
pub open spec fn min_nat(a: nat, b: nat) -> nat {
    if a <= b {
        a
    } else {
        b
    }
}

/// A span in whole milliseconds, capped at `u64::MAX`.
pub open spec fn capped_millis(nanos: nat) -> nat {
    min_nat(nanos / 1_000_000, u64::MAX as nat)
}

/// The exponent of the backoff before attempt `attempt` (1-based): it grows by
/// one per attempt from the second attempt on, and stops growing at 31.
pub open spec fn backoff_exponent(attempt: nat) -> nat {
    min_nat((attempt - 2) as nat, 31)
}

/// The backoff before the given attempt, in milliseconds, before jitter:
/// nothing before the first two attempts, then `base_delay * 2^(attempt - 2)`,
/// never more than `max_delay`.
pub open spec fn backoff_millis(p: RetryPolicy, attempt: nat) -> nat {
    if attempt <= 1 {
        0
    } else {
        min_nat(
            capped_millis(p.base_delay@) * pow2(backoff_exponent(attempt)),
            capped_millis(p.max_delay@),
        )
    }
}

/// Whether the retry loop stops after the given failed attempt.
pub open spec fn gives_up(p: RetryPolicy, attempt: nat, err: &Error) -> bool {
    attempt >= p.max_attempts || !kind_is_retryable(kind_of(err))
}

/// A retry policy as built by [`RetryPolicy::none`].
pub open spec fn is_no_retry(p: RetryPolicy) -> bool {
    &&& p.max_attempts == 1
    &&& p.base_delay@ == millis_to_nanos(50)
    &&& p.max_delay@ == secs_to_nanos(2)
    &&& p.jitter
}

/// A retry policy as built by [`RetryPolicy::conservative`].
pub open spec fn is_conservative(p: RetryPolicy) -> bool {
    &&& p.max_attempts == 3
    &&& p.base_delay@ == millis_to_nanos(100)
    &&& p.max_delay@ == secs_to_nanos(2)
    &&& p.jitter
}

/// A uniformly drawn number in `0..=high`, from `fastrand::u64`.
///
/// The only thing claimed of the draw is that it lies in the range; the
/// range is never empty, so the call does not panic.
#[verifier::external_body]
fn random_up_to(high: u64) -> (r: u64)
    ensures
        r <= high,
{
    fastrand::u64(0..=high)
}

/// Whether `d` is a whole number of milliseconds drawn by
/// [`random_up_to`] from `0..=backoff`: the span that full jitter gives.
pub closed spec fn is_jittered(backoff: nat, d: Duration) -> bool {
    exists|r: u64| #[trigger] call_ensures(random_up_to, (backoff as u64,), r) && d@ == millis_to_nanos(r as nat)
}

impl RetryPolicy {
    /// No retry.
    #[must_use]
    pub fn none() -> (p: Self)
        ensures
            is_no_retry(p),
    {
        RetryPolicy {
            max_attempts: 1,
            base_delay: Duration::from_millis(50),
            max_delay: Duration::from_secs(2),
            jitter: true,
        }
    }

    /// A conservative retry policy (good default for transient transport failures).
    #[must_use]
    pub fn conservative() -> (p: Self)
        ensures
            is_conservative(p),
    {
        RetryPolicy {
            max_attempts: 3,
            base_delay: Duration::from_millis(100),
            max_delay: Duration::from_secs(2),
            jitter: true,
        }
    }

    /// Whether an error should be retried.
    #[must_use]
    pub fn should_retry(&self, err: &Error) -> (b: bool)
        ensures
            b == kind_is_retryable(kind_of(err)),
    {
        err.is_retryable()
    }

    /// The backoff before attempt `attempt` (1-based) in milliseconds,
    /// before jitter is applied.
    pub fn backoff_millis(&self, attempt: usize) -> (ms: u64)
        ensures
            ms == backoff_millis(*self, attempt as nat),
    {
        if attempt <= 1 {
            return 0;
        }
        let ghost exp_spec = backoff_exponent(attempt as nat);
        let mut exp: u32 = if attempt - 2 < 31 {
            (attempt - 2) as u32
        } else {
            31
        };
        assert(exp == exp_spec);
        let base = self.base_delay.as_millis();
        let base_ms: u128 = if base < (u64::MAX as u128) {
            base
        } else {
            u64::MAX as u128
        };
        let max = self.max_delay.as_millis();
        let max_ms: u128 = if max < (u64::MAX as u128) {
            max
        } else {
            u64::MAX as u128
        };
        let mut factor: u128 = 1;
        let mut i: u32 = 0;
        proof {
            lemma2_to64();
        }
        while i < exp
            invariant
                i <= exp <= 31,
                factor == pow2(i as nat),
                pow2(31) == 0x80000000,
            decreases exp - i,
        {
            proof {
                lemma_pow2_unfold((i + 1) as nat);
                if i + 1 < 31 {
                    lemma_pow2_strictly_increases((i + 1) as nat, 31);
                }
            }
            factor = factor * 2;
            i = i + 1;
        }
        proof {
            if exp < 31 {
                lemma_pow2_strictly_increases(exp as nat, 31);
            }
            lemma_mul_inequality(base_ms as int, u64::MAX as int, factor as int);
            lemma_mul_inequality(factor as int, 0x80000000int, u64::MAX as int);
            assert(u64::MAX * 0x80000000int < u128::MAX) by (nonlinear_arith);
        }
        let delay_ms = base_ms * factor;
        let capped = if delay_ms > max_ms {
            max_ms
        } else {
            delay_ms
        };
        capped as u64
    }

    /// Compute the delay before the next retry.
    ///
    /// `attempt` is 1-based. With jitter enabled, the delay is drawn
    /// uniformly from zero up to the backoff; without it, the delay is the
    /// backoff itself.
    #[must_use]
    pub fn delay(&self, attempt: usize) -> (d: Duration)
        ensures
            !self.jitter ==> d@ == millis_to_nanos(backoff_millis(*self, attempt as nat)),
            self.jitter ==> d@ <= millis_to_nanos(backoff_millis(*self, attempt as nat)),
            self.jitter && backoff_millis(*self, attempt as nat) > 0 ==> is_jittered(
                backoff_millis(*self, attempt as nat),
                d,
            ),
            d@ % 1_000_000 == 0,
    {
        if attempt <= 1 {
            return Duration::zero();
        }
        let ms = self.backoff_millis(attempt);
        let final_ms = if self.jitter && ms > 0 {
            let r = random_up_to(ms);
            assert(call_ensures(random_up_to, (ms,), r));
            r
        } else {
            ms
        };
        let d = Duration::from_millis(final_ms);
        proof {
            if self.jitter && ms > 0 {
                assert(((ms as nat) as u64) == ms);
                assert(call_ensures(random_up_to, (((ms as nat) as u64),), final_ms));
                assert(is_jittered(ms as nat, d));
            }
            assert((final_ms as nat) * 1_000_000 % 1_000_000 == 0) by (nonlinear_arith);
            lemma_mul_inequality(final_ms as int, ms as int, 1_000_000);
        }
        d
    }

    /// Decide what follows a failed attempt: give up once `max_attempts`
    /// attempts have been made or when the error is not worth retrying,
    /// otherwise wait for [`RetryPolicy::delay`] and try again.
    pub fn after_failure(&self, attempt: usize, err: &Error) -> (step: RetryStep)
        ensures
            gives_up(*self, attempt as nat, err) <==> step == RetryStep::GiveUp,
            step matches RetryStep::Retry(d) ==> {
                &&& !self.jitter ==> d@ == millis_to_nanos(backoff_millis(*self, attempt as nat))
                &&& self.jitter ==> d@ <= millis_to_nanos(backoff_millis(*self, attempt as nat))
                &&& self.jitter && backoff_millis(*self, attempt as nat) > 0 ==> is_jittered(
                    backoff_millis(*self, attempt as nat),
                    d,
                )
            },
    {
        if attempt >= self.max_attempts {
            return RetryStep::GiveUp;
        }
        if !self.should_retry(err) {
            return RetryStep::GiveUp;
        }
        RetryStep::Retry(self.delay(attempt))
    }
}

impl Default for RetryPolicy {
    fn default() -> (p: Self)
        ensures
            is_conservative(p),
    {
        Self::conservative()
    }
}

/// No delay is taken before the first attempt, jitter or not.
pub proof fn law_first_attempt_has_no_backoff(p: RetryPolicy, attempt: nat)
    requires
        attempt <= 1,
    ensures
        backoff_millis(p, attempt) == 0,
{
}

/// The backoff never exceeds `max_delay`.
pub proof fn law_backoff_bounded_by_max_delay(p: RetryPolicy, attempt: nat)
    ensures
        millis_to_nanos(backoff_millis(p, attempt)) <= p.max_delay@,
{
    let m = p.max_delay@ / 1_000_000;
    assert(m * 1_000_000 <= p.max_delay@) by (nonlinear_arith)
        requires
            m == p.max_delay@ / 1_000_000,
    ;
    lemma_mul_inequality(backoff_millis(p, attempt) as int, m as int, 1_000_000);
}

/// Without jitter, each retry waits at least as long as the one before.
pub proof fn law_backoff_monotone(p: RetryPolicy, a1: nat, a2: nat)
    requires
        a1 <= a2,
    ensures
        backoff_millis(p, a1) <= backoff_millis(p, a2),
{
    if a1 > 1 {
        let e1 = backoff_exponent(a1);
        let e2 = backoff_exponent(a2);
        assert(e1 <= e2);
        if e1 < e2 {
            lemma_pow2_strictly_increases(e1, e2);
        }
        lemma_mul_inequality(
            pow2(e1) as int,
            pow2(e2) as int,
            capped_millis(p.base_delay@) as int,
        );
        assert(capped_millis(p.base_delay@) * pow2(e1) <= capped_millis(p.base_delay@) * pow2(e2))
            by (nonlinear_arith)
            requires
                pow2(e1) * capped_millis(p.base_delay@) <= pow2(e2) * capped_millis(
                    p.base_delay@,
                ),
        ;
    }
}

/// A policy that allows at most `max_attempts` attempts never asks for more:
/// once the attempt count reaches the limit, the loop gives up whatever the
/// error.
pub proof fn law_attempts_bounded(p: RetryPolicy, attempt: nat, err: &Error)
    requires
        attempt >= p.max_attempts,
    ensures
        gives_up(p, attempt, err),
{
}

/// The no-retry policy gives up after the first attempt.
pub proof fn law_no_retry_policy_never_retries(p: RetryPolicy, attempt: nat, err: &Error)
    requires
        is_no_retry(p),
        attempt >= 1,
    ensures
        gives_up(p, attempt, err),
{
}

/// Full jitter: a jittered delay is a whole number of milliseconds that one
/// uniform draw from `0..=backoff` produced, so it never exceeds the backoff.
pub proof fn law_jittered_delay_is_a_draw(backoff: nat, d: Duration)
    requires
        backoff <= u64::MAX,
        is_jittered(backoff, d),
    ensures
        exists|r: u64| #![auto] r <= backoff && d@ == millis_to_nanos(r as nat),
        d@ <= millis_to_nanos(backoff),
{
    let r = choose|r: u64| #[trigger] call_ensures(random_up_to, (backoff as u64,), r) && d@
        == millis_to_nanos(r as nat);
    assert(r <= backoff as u64);
    lemma_mul_inequality(r as int, backoff as int, 1_000_000);
}

} // verus!
