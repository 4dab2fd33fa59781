//! Retry policy: how long to wait before the next connection attempt, and
//! when to give up.

use vstd::arithmetic::power2::{
    lemma2_to64, lemma_pow2_pos, lemma_pow2_strictly_increases, lemma_pow2_unfold, pow2,
};
use vstd::prelude::*;

verus! {

/// Retry ceiling of the fixed policy unless configured otherwise.
pub const DEFAULT_FIXED_RETRIES: u32 = 5;

/// Retry ceiling of the exponential policy unless configured otherwise.
pub const DEFAULT_EXPONENTIAL_RETRIES: u32 = 10;

/// First delay of the exponential policy, in milliseconds.
pub const DEFAULT_INITIAL_DELAY_MS: u64 = 1000;

/// Largest delay of the exponential policy, in milliseconds.
pub const DEFAULT_MAX_DELAY_MS: u64 = 60000;

/// How long to wait between connection attempts. Delays are in
/// milliseconds; `max_retries` is the number of consecutive failures after
/// which no further attempt is made.
#[derive(Debug, Clone, Copy, PartialEq, Eq, Structural)]
pub enum BackoffPolicy {
    /// The same delay before every retry.
    Fixed { delay_ms: u64, max_retries: u32 },
    /// A delay that doubles from `initial_ms` on every retry, never above
    /// `ceiling_ms`.
    Exponential { initial_ms: u64, ceiling_ms: u64, max_retries: u32 },
}

/// `initial * 2^n`, capped at `ceiling`.
pub open spec fn capped_doubling(initial: nat, ceiling: nat, n: nat) -> nat {
    let d = initial * pow2(n);
    if d < ceiling {
        d
    } else {
        ceiling
    }
}

/// Doubling more often never gives a smaller capped delay.
proof fn lemma_capped_doubling_grows(initial: nat, ceiling: nat, a: nat, b: nat)
    requires
        a <= b,
    ensures
        capped_doubling(initial, ceiling, a) <= capped_doubling(initial, ceiling, b),
        initial * pow2(a) <= initial * pow2(b),
{
    if a < b {
        lemma_pow2_strictly_increases(a, b);
    }
    let pa = pow2(a);
    let pb = pow2(b);
    assert(initial * pa <= initial * pb) by (nonlinear_arith)
        requires
            pa <= pb,
    ;
}

impl BackoffPolicy {
    /// Consecutive failures after which no further attempt is made.
    pub open spec fn spec_max_retries(self) -> nat {
        match self {
            BackoffPolicy::Fixed { max_retries, .. } => max_retries as nat,
            BackoffPolicy::Exponential { max_retries, .. } => max_retries as nat,
        }
    }

    /// The largest delay the policy ever asks for.
    pub open spec fn spec_ceiling(self) -> nat {
        match self {
            BackoffPolicy::Fixed { delay_ms, .. } => delay_ms as nat,
            BackoffPolicy::Exponential { ceiling_ms, .. } => ceiling_ms as nat,
        }
    }

    /// Delay before the retry that follows the failure numbered `attempt`,
    /// counting from zero.
    pub open spec fn spec_delay(self, attempt: nat) -> nat {
        match self {
            BackoffPolicy::Fixed { delay_ms, .. } => delay_ms as nat,
            BackoffPolicy::Exponential { initial_ms, ceiling_ms, .. } => capped_doubling(
                initial_ms as nat,
                ceiling_ms as nat,
                attempt,
            ),
        }
    }

    /// Whether to give up after `attempt` consecutive failures.
    pub open spec fn spec_should_stop(self, attempt: nat) -> bool {
        attempt >= self.spec_max_retries()
    }

    /// Fixed delay, with the default retry ceiling.
    pub fn fixed(delay_ms: u64) -> (r: BackoffPolicy)
        ensures
            r == (BackoffPolicy::Fixed { delay_ms, max_retries: DEFAULT_FIXED_RETRIES }),
    {
        BackoffPolicy::Fixed { delay_ms, max_retries: DEFAULT_FIXED_RETRIES }
    }

    /// Exponential delay with the default settings: one second doubling up
    /// to one minute, ten retries.
    pub fn exponential() -> (r: BackoffPolicy)
        ensures
            r == (BackoffPolicy::Exponential {
                initial_ms: DEFAULT_INITIAL_DELAY_MS,
                ceiling_ms: DEFAULT_MAX_DELAY_MS,
                max_retries: DEFAULT_EXPONENTIAL_RETRIES,
            }),
    {
        BackoffPolicy::Exponential {
            initial_ms: DEFAULT_INITIAL_DELAY_MS,
            ceiling_ms: DEFAULT_MAX_DELAY_MS,
            max_retries: DEFAULT_EXPONENTIAL_RETRIES,
        }
    }

    /// Consecutive failures after which no further attempt is made.
    pub fn max_retries(&self) -> (r: u32)
        ensures
            r == self.spec_max_retries(),
    {
        match self {
            BackoffPolicy::Fixed { max_retries, .. } => *max_retries,
            BackoffPolicy::Exponential { max_retries, .. } => *max_retries,
        }
    }

    /// Delay in milliseconds before the retry that follows the failure
    /// numbered `attempt`, counting from zero.
    pub fn next_delay(&self, attempt: u32) -> (r: u64)
        ensures
            r == self.spec_delay(attempt as nat),
    {
        match self {
            BackoffPolicy::Fixed { delay_ms, .. } => *delay_ms,
            BackoffPolicy::Exponential { initial_ms, ceiling_ms, .. } => {
                let initial = *initial_ms;
                let ceiling = *ceiling_ms;
                let mut d: u64 = initial;
                let mut i: u32 = 0;
                proof {
                    lemma2_to64();
                }
                while i < attempt && d < ceiling && d > 0
                    invariant
                        i <= attempt,
                        d < ceiling ==> d == initial * pow2(i as nat),
                        capped_doubling(initial as nat, ceiling as nat, i as nat) == if d < ceiling {
                            d as nat
                        } else {
                            ceiling as nat
                        },
                    decreases attempt - i,
                {
                    proof {
                        lemma_pow2_unfold((i + 1) as nat);
                        let p = pow2(i as nat);
                        assert(initial * pow2((i + 1) as nat) == 2 * (initial * p)) by (nonlinear_arith)
                            requires
                                pow2((i + 1) as nat) == 2 * p,
                        ;
                    }
                    if d <= ceiling - d {
                        d = d + d;
                    } else {
                        d = ceiling;
                    }
                    i = i + 1;
                }
                proof {
                    lemma_capped_doubling_grows(initial as nat, ceiling as nat, i as nat, attempt as nat);
                    if d == 0 && d < ceiling {
                        lemma_pow2_pos(i as nat);
                        let p = pow2(attempt as nat);
                        assert(initial == 0) by (nonlinear_arith)
                            requires
                                initial * pow2(i as nat) == 0,
                                pow2(i as nat) > 0,
                        ;
                        assert(initial * p == 0) by (nonlinear_arith)
                            requires
                                initial == 0,
                        ;
                    }
                }
                if d < ceiling {
                    d
                } else {
                    ceiling
                }
            },
        }
    }

    /// Whether to give up after `attempt` consecutive failures.
    pub fn should_stop(&self, attempt: u32) -> (r: bool)
        ensures
            r == self.spec_should_stop(attempt as nat),
    {
        attempt >= self.max_retries()
    }
}

/// Delays never shrink from one retry to the next and never exceed the
/// policy's ceiling; giving up starts exactly when the number of
/// consecutive failures reaches the retry ceiling, and lasts from there on.
pub proof fn lemma_backoff_monotone(p: BackoffPolicy, n: nat)
    ensures
        p.spec_delay(n) <= p.spec_delay(n + 1),
        p.spec_delay(n) <= p.spec_ceiling(),
        p.spec_should_stop(n) ==> p.spec_should_stop(n + 1),
        (p.spec_should_stop(n) && (n == 0 || !p.spec_should_stop((n - 1) as nat))) <==> n
            == p.spec_max_retries(),
{
    if let BackoffPolicy::Exponential { initial_ms, ceiling_ms, .. } = p {
        lemma_capped_doubling_grows(initial_ms as nat, ceiling_ms as nat, n, n + 1);
    }
}

} // verus!
