//! How long to wait before the worker is started again.

use vstd::prelude::*;
use vstd::arithmetic::power::{lemma_pow0, lemma_pow_increases, lemma_pow_positive, pow};

verus! {

/// Exponential backoff: the delay grows by a constant factor with every
/// failure in a row and never exceeds a maximum.
#[derive(Clone, Copy, Debug, PartialEq, Eq, Structural)]
pub struct BackoffPolicy {
    /// The delay after the first failure, in milliseconds.
    pub initial_ms: u64,
    /// The factor by which the delay grows.
    pub multiplier: u64,
    /// The longest delay, in milliseconds.
    pub max_ms: u64,
}

/// `base * factor^exponent`.
pub open spec fn scaled_pow(base: int, factor: int, exponent: nat) -> int {
    base * pow(factor, exponent)
}

proof fn lemma_scaled_pow_step(base: int, factor: int, exponent: nat)
    ensures
        scaled_pow(base, factor, exponent + 1) == scaled_pow(base, factor, exponent) * factor,
{
    reveal(pow);
    let p = pow(factor, exponent);
    assert(base * (factor * p) == (base * p) * factor) by (nonlinear_arith);
}

proof fn lemma_scaled_pow_grows(base: nat, factor: nat, low: nat, high: nat)
    requires
        factor >= 1,
        low <= high,
    ensures
        scaled_pow(base as int, factor as int, low) <= scaled_pow(base as int, factor as int, high),
{
    lemma_pow_increases(factor, low, high);
    let a = pow(factor as int, low);
    let b = pow(factor as int, high);
    assert(base * a <= base * b) by (nonlinear_arith)
        requires
            a <= b,
            base >= 0,
    ;
}

impl BackoffPolicy {
    /// The delay never shrinks and starts at the initial delay.
    pub open spec fn wf(&self) -> bool {
        &&& self.multiplier >= 1
        &&& self.initial_ms <= self.max_ms
    }

    /// The delay after `failures` failures in a row that no connection cured:
    /// `min(initial * multiplier^failures, max)`.
    pub open spec fn delay_after(&self, failures: nat) -> int {
        vstd::math::min(
            scaled_pow(self.initial_ms as int, self.multiplier as int, failures),
            self.max_ms as int,
        )
    }

    /// One second, doubling, at most half a minute.
    pub fn standard() -> (policy: Self)
        ensures
            policy == (BackoffPolicy { initial_ms: 1000, multiplier: 2, max_ms: 30000 }),
            policy.wf(),
    {
        BackoffPolicy { initial_ms: 1000, multiplier: 2, max_ms: 30000 }
    }

    /// A policy of the given numbers, if the delay they describe never shrinks
    /// and starts at `initial_ms`.
    pub fn new(initial_ms: u64, multiplier: u64, max_ms: u64) -> (policy: Option<Self>)
        ensures
            policy == if multiplier >= 1 && initial_ms <= max_ms {
                Some(BackoffPolicy { initial_ms, multiplier, max_ms })
            } else {
                None
            },
            policy matches Some(p) ==> p.wf(),
    {
        if multiplier >= 1 && initial_ms <= max_ms {
            Some(BackoffPolicy { initial_ms, multiplier, max_ms })
        } else {
            None
        }
    }

    /// The delay in milliseconds after `failures` failures in a row.
    pub fn delay(&self, failures: u32) -> (ms: u64)
        ensures
            ms == self.delay_after(failures as nat),
    {
        let capped_initial: u64 = if self.initial_ms <= self.max_ms {
            self.initial_ms
        } else {
            self.max_ms
        };
        if failures == 0 {
            proof {
                lemma_pow0(self.multiplier as int);
            }
            return capped_initial;
        }
        if self.initial_ms == 0 {
            proof {
                let power = pow(self.multiplier as int, failures as nat);
                assert(self.initial_ms * power == 0) by (nonlinear_arith)
                    requires
                        self.initial_ms == 0,
                ;
            }
            return 0;
        }
        if self.multiplier == 0 {
            proof {
                lemma_scaled_pow_step(self.initial_ms as int, 0, (failures - 1) as nat);
            }
            return 0;
        }
        if self.multiplier == 1 {
            proof {
                vstd::arithmetic::power::lemma1_pow(failures as nat);
            }
            return capped_initial;
        }
        let mut delay: u64 = self.initial_ms;
        let mut done: u32 = 0;
        proof {
            lemma_pow0(self.multiplier as int);
        }
        while done < failures
            invariant
                done <= failures,
                self.multiplier >= 2,
                delay >= 1,
                delay == scaled_pow(self.initial_ms as int, self.multiplier as int, done as nat),
            decreases failures - done,
        {
            if delay >= self.max_ms {
                proof {
                    lemma_scaled_pow_grows(
                        self.initial_ms as nat,
                        self.multiplier as nat,
                        done as nat,
                        failures as nat,
                    );
                }
                return self.max_ms;
            }
            proof {
                lemma_scaled_pow_step(self.initial_ms as int, self.multiplier as int, done as nat);
                lemma_scaled_pow_grows(
                    self.initial_ms as nat,
                    self.multiplier as nat,
                    (done + 1) as nat,
                    failures as nat,
                );
            }
            match delay.checked_mul(self.multiplier) {
                Some(next) => {
                    assert(next >= 1) by (nonlinear_arith)
                        requires
                            next == delay * self.multiplier,
                            delay >= 1,
                            self.multiplier >= 2,
                    ;
                    delay = next;
                },
                None => {
                    return self.max_ms;
                },
            }
            done += 1;
        }
        if delay <= self.max_ms {
            delay
        } else {
            self.max_ms
        }
    }
}

/// The delay is capped by the maximum, and one more failure never shortens it.
pub proof fn lemma_delay_monotone_and_capped(policy: BackoffPolicy, failures: nat)
    requires
        policy.wf(),
    ensures
        policy.delay_after(failures) <= policy.max_ms,
        policy.delay_after(failures) <= policy.delay_after(failures + 1),
        0 <= policy.delay_after(failures),
{
    lemma_scaled_pow_grows(
        policy.initial_ms as nat,
        policy.multiplier as nat,
        failures,
        failures + 1,
    );
    lemma_pow_positive(policy.multiplier as int, failures);
    let p = pow(policy.multiplier as int, failures);
    assert(policy.initial_ms * p >= 0) by (nonlinear_arith)
        requires
            p > 0,
            policy.initial_ms >= 0,
    ;
}

/// With no failure on the count the delay is the initial delay.
pub proof fn lemma_delay_starts_at_initial(policy: BackoffPolicy)
    requires
        policy.wf(),
    ensures
        policy.delay_after(0) == policy.initial_ms,
{
    lemma_pow0(policy.multiplier as int);
}

} // verus!
