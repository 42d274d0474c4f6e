use vstd::prelude::*;

verus! {

/// How a whole session attempt is retried: at most `max_attempts` attempts;
/// the wait after the n-th failure starts at `base_delay_secs`, doubles each
/// time and never exceeds `max_delay_secs`.
#[derive(Clone, Copy, Debug, PartialEq, Eq, Structural)]
pub struct RetryPolicy {
    pub max_attempts: u32,
    pub base_delay_secs: u64,
    pub max_delay_secs: u64,
}

/// What to do after an attempt failed.
#[derive(Clone, Copy, Debug, PartialEq, Eq, Structural)]
pub enum RetryDecision {
    /// Wait, then start a fresh attempt with a fresh session.
    RetryAfter { delay_secs: u64 },
    /// Stop and surface the last error.
    GiveUp,
}

pub open spec fn min_int(a: int, b: int) -> int {
    if a <= b {
        a
    } else {
        b
    }
}

pub open spec fn pow2(n: nat) -> nat
    decreases n,
{
    if n == 0 {
        1
    } else {
        2 * pow2((n - 1) as nat)
    }
}

impl RetryPolicy {
    pub open spec fn wf(&self) -> bool {
        self.max_attempts >= 1 && self.max_delay_secs <= u32::MAX
    }

    /// The wait after the n-th failed attempt (n >= 1).
    pub open spec fn delay_spec(&self, n: nat) -> int {
        min_int(self.base_delay_secs * pow2((n - 1) as nat), self.max_delay_secs as int)
    }

    /// The decision after `made` attempts, the last of which failed.
    pub open spec fn decide(&self, made: nat) -> RetryDecision {
        if made < self.max_attempts {
            RetryDecision::RetryAfter { delay_secs: self.delay_spec(made) as u64 }
        } else {
            RetryDecision::GiveUp
        }
    }

    /// Ten attempts, one second first, waits capped at ten seconds.
    pub fn standard() -> (r: RetryPolicy)
        ensures
            r.wf(),
            r.max_attempts == 10,
            r.base_delay_secs == 1,
            r.max_delay_secs == 10,
    {
        RetryPolicy { max_attempts: 10, base_delay_secs: 1, max_delay_secs: 10 }
    }

    /// The wait after the n-th failed attempt.
    pub fn delay_after(&self, n: u32) -> (r: u64)
        requires
            self.wf(),
            n >= 1,
        ensures
            r == self.delay_spec(n as nat),
    {
        let cap = self.max_delay_secs;
        let mut d: u64 = if self.base_delay_secs < cap {
            self.base_delay_secs
        } else {
            cap
        };
        let mut i: u32 = 1;
        proof {
            assert(pow2(0) == 1);
            assert(self.base_delay_secs * pow2(0) == self.base_delay_secs);
            assert(self.delay_spec(1) == min_int(self.base_delay_secs as int, cap as int));
        }
        while i < n
            invariant
                1 <= i <= n,
                cap == self.max_delay_secs,
                cap <= u32::MAX,
                d as int == self.delay_spec(i as nat),
            decreases n - i,
        {
            proof {
                let p = pow2((i - 1) as nat);
                assert(pow2(i as nat) == 2 * p);
                assert(self.base_delay_secs * (2 * p) == 2 * (self.base_delay_secs * p))
                    by (nonlinear_arith);
            }
            d = if d >= cap / 2 + 1 {
                cap
            } else if 2 * d < cap {
                2 * d
            } else {
                cap
            };
            i = i + 1;
        }
        d
    }

    /// What to do after `made` attempts, the last of which failed: retry
    /// while fewer than `max_attempts` attempts were made, else give up.
    pub fn after_failure(&self, made: u32) -> (r: RetryDecision)
        requires
            self.wf(),
            made >= 1,
        ensures
            r == self.decide(made as nat),
            (r == RetryDecision::GiveUp) <==> made >= self.max_attempts,
    {
        if made < self.max_attempts {
            RetryDecision::RetryAfter { delay_secs: self.delay_after(made) }
        } else {
            RetryDecision::GiveUp
        }
    }
}

/// The number of attempts made when attempt i (counting from 0) succeeds
/// exactly when `outcomes[i]` holds, from the point where `made` attempts
/// have already failed.
pub open spec fn attempts_from(p: RetryPolicy, outcomes: Seq<bool>, made: nat) -> nat
    decreases p.max_attempts - made,
{
    if made >= p.max_attempts || made >= outcomes.len() {
        made
    } else if outcomes[made as int] {
        made + 1
    } else if p.decide(made + 1) == RetryDecision::GiveUp {
        made + 1
    } else {
        attempts_from(p, outcomes, made + 1)
    }
}

/// The number of attempts a run makes for the given attempt outcomes.
pub open spec fn attempts_made(p: RetryPolicy, outcomes: Seq<bool>) -> nat {
    attempts_from(p, outcomes, 0)
}

proof fn lemma_attempts_from(p: RetryPolicy, outcomes: Seq<bool>, made: nat, k: nat)
    requires
        p.wf(),
        made <= p.max_attempts,
        outcomes.len() >= p.max_attempts,
        forall|i: int| 0 <= i < made ==> !outcomes[i],
    ensures
        (forall|i: int| 0 <= i < p.max_attempts ==> !outcomes[i]) ==> attempts_from(p, outcomes, made)
            == p.max_attempts,
        made < k <= p.max_attempts && outcomes[k - 1] && (forall|i: int| 0 <= i < k - 1 ==> !outcomes[i])
            ==> attempts_from(p, outcomes, made) == k,
    decreases p.max_attempts - made,
{
    if made < p.max_attempts {
        if !outcomes[made as int] && made + 1 < p.max_attempts {
            lemma_attempts_from(p, outcomes, made + 1, k);
        }
    }
}

/// A run whose attempts all fail transiently makes exactly `max_attempts`
/// attempts; a run whose k-th attempt is its first success, k at most
/// `max_attempts`, makes exactly k attempts and creates no further session.
pub proof fn lemma_retry_attempt_count(p: RetryPolicy, outcomes: Seq<bool>, k: nat)
    requires
        p.wf(),
        outcomes.len() >= p.max_attempts,
    ensures
        (forall|i: int| 0 <= i < p.max_attempts ==> !outcomes[i]) ==> attempts_made(p, outcomes)
            == p.max_attempts,
        1 <= k <= p.max_attempts && outcomes[k - 1] && (forall|i: int| 0 <= i < k - 1 ==> !outcomes[i])
            ==> attempts_made(p, outcomes) == k,
{
    lemma_attempts_from(p, outcomes, 0, k);
}

/// Bookkeeping of one retried operation: how many attempts were started.
pub struct RetryDriver {
    pub policy: RetryPolicy,
    pub attempts: u32,
}

/// What the driver asks for next.
#[derive(Clone, Copy, Debug, PartialEq, Eq, Structural)]
pub enum DriverAction {
    /// Wait this long, then start a fresh attempt.
    Attempt { wait_secs: u64 },
    /// Return the attempt's success to the caller.
    ReturnSuccess,
    /// Return the last error to the caller.
    ReturnLastError,
}

impl RetryDriver {
    pub open spec fn wf(&self) -> bool {
        self.policy.wf() && self.attempts <= self.policy.max_attempts
    }

    pub fn new(policy: RetryPolicy) -> (r: RetryDriver)
        requires
            policy.wf(),
        ensures
            r.wf(),
            r.policy == policy,
            r.attempts == 0,
    {
        RetryDriver { policy, attempts: 0 }
    }

    /// Records that an attempt is starting; the first attempt waits for
    /// nothing.
    pub fn start_attempt(&mut self)
        requires
            old(self).wf(),
            old(self).attempts < old(self).policy.max_attempts,
        ensures
            final(self).wf(),
            final(self).policy == old(self).policy,
            final(self).attempts == old(self).attempts + 1,
    {
        self.attempts = self.attempts + 1;
    }

    /// What to do once the current attempt reported success or failure.
    pub fn on_outcome(&self, succeeded: bool) -> (r: DriverAction)
        requires
            self.wf(),
            self.attempts >= 1,
        ensures
            succeeded ==> r == DriverAction::ReturnSuccess,
            !succeeded ==> match self.policy.decide(self.attempts as nat) {
                RetryDecision::RetryAfter { delay_secs } => r == (DriverAction::Attempt { wait_secs: delay_secs }),
                RetryDecision::GiveUp => r == DriverAction::ReturnLastError,
            },
            (r matches DriverAction::Attempt { .. }) ==> self.attempts < self.policy.max_attempts,
    {
        if succeeded {
            DriverAction::ReturnSuccess
        } else {
            match self.policy.after_failure(self.attempts) {
                RetryDecision::RetryAfter { delay_secs } => DriverAction::Attempt { wait_secs: delay_secs },
                RetryDecision::GiveUp => DriverAction::ReturnLastError,
            }
        }
    }
}

} // verus!
