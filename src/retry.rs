//! Retrying with exponential backoff, for store connections.
use vstd::prelude::*;

verus! {

/// Attempts at opening a store connection before giving up.
pub const CONNECT_ATTEMPTS: u32 = 5;

/// The wait after the first failed connection attempt.
pub const CONNECT_DELAY_MS: u64 = 100;

pub open spec fn pow2(n: nat) -> nat
    decreases n,
{
    if n == 0 {
        1
    } else {
        2 * pow2((n - 1) as nat)
    }
}

/// What to do after a failed attempt.
#[derive(Clone, Copy, PartialEq, Eq, Structural, Debug)]
pub enum RetryStep {
    /// Wait this many milliseconds, then try again.
    RetryAfter(u64),
    /// No attempts are left.
    GiveUp,
}

pub open spec fn retry_spec(failed: nat, max_attempts: nat, initial_ms: nat) -> RetryStep {
    if failed >= max_attempts {
        RetryStep::GiveUp
    } else {
        RetryStep::RetryAfter((initial_ms * pow2((failed - 1) as nat)) as u64)
    }
}

/// Decides what follows the `failed`-th failed attempt out of at most
/// `max_attempts`: the wait doubles after each failure, starting at
/// `initial_ms`, and the last failure gives up.
pub fn after_failure(failed: u32, max_attempts: u32, initial_ms: u64) -> (r: RetryStep)
    requires
        1 <= failed,
        max_attempts <= 32,
        initial_ms <= 1_000_000,
    ensures
        r == retry_spec(failed as nat, max_attempts as nat, initial_ms as nat),
        r matches RetryStep::RetryAfter(d) ==> d as nat == initial_ms * pow2((failed - 1) as nat),
{
    if failed >= max_attempts {
        return RetryStep::GiveUp;
    }
    let mut d: u64 = initial_ms;
    let mut k: u32 = 1;
    while k < failed
        invariant
            1 <= k <= failed < max_attempts <= 32,
            initial_ms <= 1_000_000,
            d as nat == initial_ms * pow2((k - 1) as nat),
            pow2((k - 1) as nat) <= 0x8000_0000,
        decreases failed - k,
    {
        proof {
            assert(pow2(k as nat) == 2 * pow2((k - 1) as nat));
            lemma_pow2_bound(k as nat);
            assert(initial_ms * pow2((k - 1) as nat) <= 1_000_000 * 0x8000_0000) by (nonlinear_arith)
                requires
                    initial_ms <= 1_000_000,
                    pow2((k - 1) as nat) <= 0x8000_0000,
            ;
        }
        d = d * 2;
        proof {
            let x = pow2((k - 1) as nat);
            assert(initial_ms * (2 * x) == 2 * (initial_ms * x)) by (nonlinear_arith);
        }
        k = k + 1;
    }
    RetryStep::RetryAfter(d)
}

pub proof fn lemma_pow2_bound(n: nat)
    requires
        n <= 31,
    ensures
        pow2(n) <= 0x8000_0000,
{
    reveal_with_fuel(pow2, 32);
    assert(pow2(31) == 0x8000_0000);
    lemma_pow2_mono(n, 31);
}

pub proof fn lemma_pow2_mono(a: nat, b: nat)
    requires
        a <= b,
    ensures
        pow2(a) <= pow2(b),
    decreases b,
{
    if a < b {
        lemma_pow2_mono(a, (b - 1) as nat);
    }
}

} // verus!
