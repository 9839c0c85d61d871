//! Capped exponential backoff with jitter, computed in whole milliseconds.
//!
//! The n-th consecutive failure waits `initial * multiplier^(n-1)`
//! milliseconds, capped at a maximum, plus a jitter share of the base delay
//! drawn from a caller-supplied random value; the jittered total is capped
//! again. Randomness enters only as a plain argument, so the arithmetic is
//! fully verified.

use vstd::prelude::*;
use vstd::arithmetic::div_mod::lemma_fundamental_div_mod;
use vstd::arithmetic::mul::lemma_mul_inequality;

verus! {

/// Reconnect backoff configuration. Delays are in milliseconds; the jitter
/// share is a percentage of the base delay; the failure threshold is the
/// number of consecutive failures tolerated before waits are inserted.
pub struct BackoffParams {
    pub initial_delay_ms: u64,
    pub max_delay_ms: u64,
    pub multiplier: u64,
    pub jitter_pct: u64,
    pub failure_threshold: u64,
}

impl BackoffParams {
    /// Sane configuration: a positive initial delay no larger than the cap,
    /// a growth factor of at least one, and a jitter share of at most 100%.
    pub open spec fn valid(&self) -> bool {
        &&& 1 <= self.initial_delay_ms <= self.max_delay_ms
        &&& self.multiplier >= 1
        &&& self.jitter_pct <= 100
    }

    /// Runtime check of `valid`.
    pub fn is_valid(&self) -> (r: bool)
        ensures
            r == self.valid(),
    {
        1 <= self.initial_delay_ms && self.initial_delay_ms <= self.max_delay_ms
            && self.multiplier >= 1 && self.jitter_pct <= 100
    }
}

/// The base (pre-jitter) delay for the n-th consecutive failure: the
/// initial delay for the first failure, multiplied per further failure and
/// capped at the maximum. A count of zero is treated as one.
pub open spec fn spec_base_delay(p: BackoffParams, n: u64) -> int
    decreases n,
{
    if n <= 1 {
        p.initial_delay_ms as int
    } else {
        let prev = spec_base_delay(p, (n - 1) as u64);
        if prev > p.max_delay_ms as int / p.multiplier as int {
            p.max_delay_ms as int
        } else {
            prev * p.multiplier as int
        }
    }
}

/// The jittered, capped delay: the base delay plus `j` hundredths of it,
/// where `j` is the draw reduced modulo `jitter_pct + 1`, capped at the
/// maximum delay.
pub open spec fn spec_delay(p: BackoffParams, n: u64, draw: u64) -> int {
    let base = spec_base_delay(p, n);
    let j = draw as int % (p.jitter_pct + 1) as int;
    let total = base + (base / 100) * j;
    if total > p.max_delay_ms as int {
        p.max_delay_ms as int
    } else {
        total
    }
}

/// The base delay always lies between the initial delay and the cap.
pub proof fn lemma_base_delay_bounds(p: BackoffParams, n: u64)
    requires
        p.valid(),
    ensures
        p.initial_delay_ms as int <= spec_base_delay(p, n) <= p.max_delay_ms as int,
    decreases n,
{
    if n > 1 {
        lemma_base_delay_bounds(p, (n - 1) as u64);
        let prev = spec_base_delay(p, (n - 1) as u64);
        let m = p.multiplier as int;
        let mx = p.max_delay_ms as int;
        if prev <= mx / m {
            lemma_mul_inequality(prev, mx / m, m);
            lemma_fundamental_div_mod(mx, m);
            lemma_mul_inequality(1, m, prev);
        }
    }
}

/// More consecutive failures never yield a shorter base delay.
pub proof fn lemma_base_delay_monotone(p: BackoffParams, n1: u64, n2: u64)
    requires
        p.valid(),
        n1 <= n2,
    ensures
        spec_base_delay(p, n1) <= spec_base_delay(p, n2),
    decreases n2 - n1,
{
    if n1 < n2 {
        lemma_base_delay_monotone(p, n1, (n2 - 1) as u64);
        let prev = spec_base_delay(p, (n2 - 1) as u64);
        let m = p.multiplier as int;
        let mx = p.max_delay_ms as int;
        lemma_base_delay_bounds(p, (n2 - 1) as u64);
        if n2 > 1 {
            if prev <= mx / m {
                lemma_mul_inequality(1, m, prev);
            } else {
                lemma_base_delay_bounds(p, n1);
            }
        }
    }
}

/// With a growth factor of at least two, the base delay strictly grows
/// until it reaches the cap.
pub proof fn lemma_base_delay_strictly_grows(p: BackoffParams, n: u64)
    requires
        p.valid(),
        p.multiplier >= 2,
        1 <= n < u64::MAX,
        spec_base_delay(p, n) < p.max_delay_ms as int,
    ensures
        spec_base_delay(p, n) < spec_base_delay(p, (n + 1) as u64),
{
    let prev = spec_base_delay(p, n);
    let m = p.multiplier as int;
    let mx = p.max_delay_ms as int;
    lemma_base_delay_bounds(p, n);
    if prev <= mx / m {
        lemma_mul_inequality(2, m, prev);
    }
}

/// The base delay before jitter for the n-th consecutive failure.
fn base_delay(p: &BackoffParams, failures: u64) -> (b: u64)
    requires
        p.valid(),
    ensures
        b as int == spec_base_delay(*p, failures),
        p.initial_delay_ms <= b <= p.max_delay_ms,
{
    proof {
        lemma_base_delay_bounds(*p, failures);
    }
    let mut n: u64 = 1;
    let mut b: u64 = p.initial_delay_ms;
    while n < failures
        invariant
            p.valid(),
            1 <= n,
            n <= failures || n == 1,
            b as int == spec_base_delay(*p, n),
            p.initial_delay_ms <= b <= p.max_delay_ms,
        decreases failures - n,
    {
        proof {
            lemma_base_delay_bounds(*p, (n + 1) as u64);
        }
        if b > p.max_delay_ms / p.multiplier {
            b = p.max_delay_ms;
        } else {
            proof {
                let m = p.multiplier as int;
                let mx = p.max_delay_ms as int;
                lemma_mul_inequality(b as int, mx / m, m);
                lemma_fundamental_div_mod(mx, m);
            }
            b = b * p.multiplier;
        }
        n = n + 1;
    }
    b
}

/// The capped, jittered delay to wait after the n-th consecutive failure.
/// `jitter_draw` is a caller-supplied random value; only its remainder
/// modulo `jitter_pct + 1` enters the result, so any value is acceptable.
pub fn delay_ms(p: &BackoffParams, failures: u64, jitter_draw: u64) -> (d: u64)
    requires
        p.valid(),
    ensures
        d as int == spec_delay(*p, failures, jitter_draw),
        p.initial_delay_ms <= d <= p.max_delay_ms,
{
    let base = base_delay(p, failures);
    let j = jitter_draw % (p.jitter_pct + 1);
    proof {
        lemma_mul_inequality(j as int, 100, base as int / 100);
        lemma_fundamental_div_mod(base as int, 100);
    }
    let extra = (base / 100) * j;
    if extra > p.max_delay_ms - base {
        p.max_delay_ms
    } else {
        base + extra
    }
}

} // verus!
