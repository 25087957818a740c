//! Exponential backoff between reconnection attempts. Delays are in
//! milliseconds.

use vstd::prelude::*;

verus! {

/// `m` to the power `n`.
pub open spec fn power(m: nat, n: nat) -> nat
    decreases n,
{
    if n == 0 { 1 } else { m * power(m, (n - 1) as nat) }
}

/// The smaller of two numbers.
pub open spec fn min_nat(a: nat, b: nat) -> nat {
    if a <= b { a } else { b }
}

/// The delay before attempt `n`: the initial delay times `m` to the power
/// `n`, capped at `cap`.
pub open spec fn delay_at(initial: nat, m: nat, cap: nat, n: nat) -> nat {
    min_nat(initial * power(m, n), cap)
}

/// Capping before or after one more multiplication by `m >= 1` gives the
/// same delay.
proof fn lemma_cap_step(x: nat, m: nat, cap: nat)
    requires
        m >= 1,
    ensures
        min_nat(min_nat(x, cap) * m, cap) == min_nat(x * m, cap),
{
    if x > cap {
        assert(x * m >= x) by (nonlinear_arith)
            requires
                m >= 1,
        ;
        assert(cap * m >= cap) by (nonlinear_arith)
            requires
                m >= 1,
        ;
    }
}

/// Exponential backoff state.
#[derive(Debug, Clone)]
pub struct Backoff {
    initial_delay: u64,
    max_delay: u64,
    multiplier: u32,
    attempt: u32,
    max_attempts: u32,
}

impl Backoff {
    /// Delay before the first retry.
    pub closed spec fn initial(&self) -> nat {
        self.initial_delay as nat
    }

    /// Upper bound of every delay.
    pub closed spec fn cap(&self) -> nat {
        self.max_delay as nat
    }

    /// Growth factor between two delays.
    pub closed spec fn factor(&self) -> nat {
        self.multiplier as nat
    }

    /// Retries handed out since the last reset.
    pub closed spec fn attempts(&self) -> nat {
        self.attempt as nat
    }

    /// Retry budget; 0 means unlimited.
    pub closed spec fn limit(&self) -> nat {
        self.max_attempts as nat
    }

    /// The multiplier is at least one.
    pub closed spec fn wf(&self) -> bool {
        self.multiplier >= 1
    }

    /// The budget is spent.
    pub open spec fn spent(&self) -> bool {
        self.limit() > 0 && self.attempts() >= self.limit()
    }

    /// The delay that the next retry gets.
    pub open spec fn current_delay(&self) -> nat {
        delay_at(self.initial(), self.factor(), self.cap(), self.attempts())
    }

    /// One second, doubling, capped at five minutes, unlimited.
    pub fn new() -> (r: Backoff)
        ensures
            r.wf(),
            r.initial() == 1000,
            r.cap() == 300_000,
            r.factor() == 2,
            r.attempts() == 0,
            r.limit() == 0,
    {
        Backoff { initial_delay: 1000, max_delay: 300_000, multiplier: 2, attempt: 0, max_attempts: 0 }
    }

    /// Sets the first delay.
    pub fn with_initial_delay(self, delay: u64) -> (r: Backoff)
        requires
            self.wf(),
        ensures
            r.wf(),
            r.initial() == delay,
            r.cap() == self.cap(),
            r.factor() == self.factor(),
            r.attempts() == self.attempts(),
            r.limit() == self.limit(),
    {
        Backoff { initial_delay: delay, ..self }
    }

    /// Sets the cap.
    pub fn with_max_delay(self, delay: u64) -> (r: Backoff)
        requires
            self.wf(),
        ensures
            r.wf(),
            r.initial() == self.initial(),
            r.cap() == delay,
            r.factor() == self.factor(),
            r.attempts() == self.attempts(),
            r.limit() == self.limit(),
    {
        Backoff { max_delay: delay, ..self }
    }

    /// Sets the growth factor, which must be at least one.
    pub fn with_multiplier(self, multiplier: u32) -> (r: Backoff)
        requires
            multiplier >= 1,
        ensures
            r.wf(),
            r.initial() == self.initial(),
            r.cap() == self.cap(),
            r.factor() == multiplier,
            r.attempts() == self.attempts(),
            r.limit() == self.limit(),
    {
        Backoff { multiplier, ..self }
    }

    /// Sets the retry budget; 0 means unlimited.
    pub fn with_max_attempts(self, max: u32) -> (r: Backoff)
        requires
            self.wf(),
        ensures
            r.wf(),
            r.initial() == self.initial(),
            r.cap() == self.cap(),
            r.factor() == self.factor(),
            r.attempts() == self.attempts(),
            r.limit() == max,
    {
        Backoff { max_attempts: max, ..self }
    }

    /// The delay for the current attempt, without counting it.
    pub fn calculate_delay(&self) -> (r: u64)
        requires
            self.wf(),
        ensures
            r == self.current_delay(),
    {
        let cap = self.max_delay;
        let m = self.multiplier as u128;
        let mut d: u64 = if self.initial_delay <= cap { self.initial_delay } else { cap };
        let mut k: u32 = 0;
        proof {
            assert(power(m as nat, 0) == 1);
            assert(self.initial() * 1 == self.initial());
        }
        while k < self.attempt
            invariant
                m == self.multiplier,
                m >= 1,
                cap == self.max_delay,
                k <= self.attempt,
                d as nat == delay_at(self.initial(), m as nat, cap as nat, k as nat),
            decreases self.attempt - k,
        {
            let ghost x = self.initial() * power(m as nat, k as nat);
            proof {
                assert(d <= cap);
                assert(d as u128 * m <= u64::MAX as u128 * u32::MAX as u128) by (nonlinear_arith)
                    requires
                        d <= u64::MAX,
                        m <= u32::MAX,
                ;
                lemma_cap_step(x, m as nat, cap as nat);
                assert(x * (m as nat) == self.initial() * power(m as nat, (k + 1) as nat)) by (nonlinear_arith)
                    requires
                        x == self.initial() * power(m as nat, k as nat),
                        power(m as nat, (k + 1) as nat) == m as nat * power(m as nat, k as nat),
                ;
            }
            let next: u128 = d as u128 * m;
            d = if next <= cap as u128 { next as u64 } else { cap };
            k = k + 1;
        }
        d
    }

    /// The delay for the next retry, counting it; `None` once the budget is
    /// spent.
    pub fn next_delay(&mut self) -> (r: Option<u64>)
        requires
            old(self).wf(),
        ensures
            final(self).wf(),
            final(self).initial() == old(self).initial(),
            final(self).cap() == old(self).cap(),
            final(self).factor() == old(self).factor(),
            final(self).limit() == old(self).limit(),
            old(self).spent() ==> r is None && final(self).attempts() == old(self).attempts(),
            !old(self).spent() ==> r is Some && r->0 as nat == old(self).current_delay()
                && final(self).attempts() == if old(self).attempts() < u32::MAX {
                old(self).attempts() + 1
            } else {
                old(self).attempts()
            },
    {
        if self.max_attempts > 0 && self.attempt >= self.max_attempts {
            return None;
        }
        let delay = self.calculate_delay();
        // With an unlimited budget the count saturates.
        if self.attempt < u32::MAX {
            self.attempt = self.attempt + 1;
        }
        Some(delay)
    }

    /// Starts counting retries from zero again.
    pub fn reset(&mut self)
        requires
            old(self).wf(),
        ensures
            final(self).wf(),
            final(self).initial() == old(self).initial(),
            final(self).cap() == old(self).cap(),
            final(self).factor() == old(self).factor(),
            final(self).limit() == old(self).limit(),
            final(self).attempts() == 0,
    {
        self.attempt = 0;
    }

    /// Retries handed out since the last reset.
    pub fn attempt(&self) -> (r: u32)
        ensures
            r == self.attempts(),
    {
        self.attempt
    }

    /// Whether the budget is spent.
    pub fn is_exhausted(&self) -> (r: bool)
        ensures
            r == self.spent(),
    {
        self.max_attempts > 0 && self.attempt >= self.max_attempts
    }
}

} // verus!
