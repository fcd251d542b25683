use vstd::prelude::*;

verus! {

/// How often and how many times the backend endpoint is probed before the
/// supervisor gives up waiting for it.
#[derive(Clone, Copy, Debug, PartialEq, Eq, Structural)]
pub struct RetryPolicy {
    pub max_attempts: u32,
    pub interval_ms: u64,
}

/// The longest time, in milliseconds, that a policy lets the prober wait.
pub open spec fn budget_ms(p: RetryPolicy) -> int {
    p.max_attempts as int * p.interval_ms as int
}

impl RetryPolicy {
    pub fn new(max_attempts: u32, interval_ms: u64) -> (r: RetryPolicy)
        ensures
            r.max_attempts == max_attempts,
            r.interval_ms == interval_ms,
    {
        RetryPolicy { max_attempts, interval_ms }
    }

    /// The policy this shell uses: twenty attempts, half a second apart,
    /// which bounds the wait at about ten seconds.
    pub fn standard() -> (r: RetryPolicy)
        ensures
            r.max_attempts == 20,
            r.interval_ms == 500,
    {
        RetryPolicy { max_attempts: 20, interval_ms: 500 }
    }

    /// Worst-case time spent probing, in milliseconds.
    pub fn budget_ms(&self) -> (r: u128)
        ensures
            r as int == budget_ms(*self),
    {
        proof {
            assert(self.max_attempts as int * self.interval_ms as int <= u32::MAX as int * u64::MAX as int) by (nonlinear_arith);
        }
        (self.max_attempts as u128) * (self.interval_ms as u128)
    }
}

} // verus!
