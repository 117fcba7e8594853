//! The retry schedule of a chart fetch: after a failed attempt the fetch
//! either gives up or waits, the wait doubling with each attempt.
use vstd::prelude::*;

verus! {

pub open spec fn pow2(n: nat) -> nat
    decreases n,
{
    if n == 0 {
        1
    } else {
        2 * pow2((n - 1) as nat)
    }
}

/// What to do after a failed fetch.
#[derive(Clone, Copy, Debug, PartialEq, Eq, Structural)]
pub enum RetryDecision {
    /// Stop and report the failure.
    GiveUp,
    /// Wait this many milliseconds, then try again.
    Wait(u64),
}

/// After the `failures`-th failure (counting from 1): give up once
/// `failures` reaches `max_retries`, else wait `base * 2^(failures - 1)` ms,
/// so the waits are the base delay, then twice it, four times it, and so on.
pub open spec fn retry_spec(failures: nat, max_retries: nat, base_delay_ms: nat) -> RetryDecision {
    if failures >= max_retries {
        RetryDecision::GiveUp
    } else {
        RetryDecision::Wait((base_delay_ms * pow2((failures - 1) as nat)) as u64)
    }
}

/// The wait `base * 2^exponent` is defined: the power and the product fit
/// in a `u64`.
pub open spec fn retry_wait_fits(exponent: nat, base_delay_ms: nat) -> bool {
    pow2(exponent) <= u64::MAX && base_delay_ms * pow2(exponent) <= u64::MAX
}

proof fn lemma_pow2_positive(n: nat)
    ensures
        pow2(n) >= 1,
    decreases n,
{
    if n > 0 {
        lemma_pow2_positive((n - 1) as nat);
    }
}

proof fn lemma_pow2_monotone(a: nat, b: nat)
    requires
        a <= b,
    ensures
        pow2(a) <= pow2(b),
    decreases b,
{
    if a < b {
        lemma_pow2_monotone(a, (b - 1) as nat);
        lemma_pow2_positive((b - 1) as nat);
    }
}

/// Called after a fetch attempt failed, with the number of failures before
/// it; returns the new number of failures and what to do next. The wait
/// after the first failure is `base_delay_ms`, and doubles after each
/// further one.
pub fn after_failure(attempt: u32, max_retries: u32, base_delay_ms: u64) -> (r: (u32, RetryDecision))
    requires
        attempt < u32::MAX,
        attempt + 1 < max_retries ==> retry_wait_fits(attempt as nat, base_delay_ms as nat),
    ensures
        r.0 == attempt + 1,
        r.1 == retry_spec(r.0 as nat, max_retries as nat, base_delay_ms as nat),
{
    let failures = attempt + 1;
    if failures >= max_retries {
        return (failures, RetryDecision::GiveUp);
    }
    let mut p: u64 = 1;
    let mut k: u32 = 0;
    while k < attempt
        invariant
            k <= attempt,
            pow2(attempt as nat) <= u64::MAX,
            p == pow2(k as nat),
        decreases attempt - k,
    {
        proof {
            lemma_pow2_monotone((k + 1) as nat, attempt as nat);
        }
        p = p * 2;
        k = k + 1;
    }
    proof {
        lemma_pow2_positive(attempt as nat);
        assert(base_delay_ms * p <= u64::MAX);
    }
    (failures, RetryDecision::Wait(base_delay_ms * p))
}

/// Number of requests a fetch makes when every one of them fails, starting
/// from `failures` failed requests so far.
pub open spec fn requests_until_give_up(failures: nat, max_retries: nat) -> nat
    decreases max_retries - failures,
{
    if failures + 1 >= max_retries {
        1
    } else {
        1 + requests_until_give_up(failures + 1, max_retries)
    }
}

/// A fetch against a service that always fails makes `max_retries`
/// requests (one when `max_retries` is 0); the wait after the first failure
/// is the base delay itself, and each later wait is twice the one before:
/// when failures `k` and `k + 1` both lead to a wait, the second is twice
/// the first.
pub proof fn lemma_retry_schedule(max_retries: nat, base_delay_ms: nat, k: nat)
    requires
        base_delay_ms <= u64::MAX,
        1 <= k,
        k + 1 < max_retries,
        base_delay_ms * pow2(k) <= u64::MAX,
    ensures
        requests_until_give_up(0, max_retries) == if max_retries == 0 {
            1
        } else {
            max_retries
        },
        retry_spec(1, max_retries, base_delay_ms) == RetryDecision::Wait(base_delay_ms as u64),
        retry_spec(k, max_retries, base_delay_ms) is Wait,
        retry_spec(k + 1, max_retries, base_delay_ms) is Wait,
        retry_spec(k + 1, max_retries, base_delay_ms)->0 == 2 * retry_spec(
            k,
            max_retries,
            base_delay_ms,
        )->0,
{
    lemma_requests_count(0, max_retries);
    assert(pow2(0) == 1);
    assert(((1 - 1) as nat) == 0nat);
    assert(base_delay_ms * pow2(0) == base_delay_ms);
    assert(pow2(k) == 2 * pow2((k - 1) as nat));
    assert(base_delay_ms * (2 * pow2((k - 1) as nat)) == 2 * (base_delay_ms * pow2(
        (k - 1) as nat,
    ))) by (nonlinear_arith);
    lemma_pow2_positive((k - 1) as nat);
    assert(base_delay_ms * pow2((k - 1) as nat) <= base_delay_ms * pow2(k)) by (nonlinear_arith)
        requires
            pow2(k) == 2 * pow2((k - 1) as nat),
    ;
}

proof fn lemma_requests_count(failures: nat, max_retries: nat)
    ensures
        requests_until_give_up(failures, max_retries) == if failures + 1 >= max_retries {
            1
        } else {
            max_retries - failures
        },
    decreases max_retries - failures,
{
    if failures + 1 < max_retries {
        lemma_requests_count(failures + 1, max_retries);
    }
}

} // verus!
