//! The policy by which a connection to a remote service is tried again: wait,
//! twice as long after each failure up to a cap, and give up once the
//! failures exceed a bound.

use vstd::prelude::*;
use crate::configuration::state::{ConnectionEvent, ReadinessGate};

verus! {

/// The first delay, in milliseconds.
pub const INITIAL_BACKOFF: u64 = 100;

/// The longest delay, in milliseconds.
pub const MAX_BACKOFF: u64 = 120000;

/// The number of failures that a connector bears before it gives up.
pub const MAX_RETRIES: u32 = 10;

/// Two to the power of `n`.
pub open spec fn pow2(n: nat) -> nat
    decreases n,
{
    if n == 0 {
        1
    } else {
        2 * pow2((n - 1) as nat)
    }
}

/// The smaller of two numbers.
pub open spec fn min(a: int, b: int) -> int {
    if a <= b {
        a
    } else {
        b
    }
}

/// How a connector waits and when it gives up.
#[derive(Clone, Copy, Debug, PartialEq, Eq, Structural)]
pub struct RetryPolicy {
    /// The delay after the first failure, in milliseconds.
    pub initial_backoff: u64,
    /// The cap on the delay, in milliseconds.
    pub max_backoff: u64,
    /// The number of failures after which one more is fatal.
    pub max_retries: u32,
}

/// The delay after the `failure`-th failure in a row, counted from one: the
/// initial delay doubled once for each earlier failure, capped.
pub open spec fn backoff_delay(policy: RetryPolicy, failure: nat) -> int {
    min(policy.initial_backoff * pow2((failure - 1) as nat), policy.max_backoff as int)
}

/// Whether the `failure`-th failure in a row is fatal.
pub open spec fn is_fatal(policy: RetryPolicy, failure: nat) -> bool {
    failure > policy.max_retries
}

/// Each delay is the one before it doubled, capped at the longest delay.
pub proof fn lemma_backoff_doubles(policy: RetryPolicy, failure: nat)
    requires
        failure >= 1,
    ensures
        backoff_delay(policy, failure + 1) == min(
            2 * backoff_delay(policy, failure),
            policy.max_backoff as int,
        ),
{
    let i = policy.initial_backoff as int;
    let p = pow2((failure - 1) as nat) as int;
    assert(i * (2 * p) == 2 * (i * p)) by (nonlinear_arith);
}

/// No delay is longer than the cap, none is negative, and the delays never
/// shrink from one failure to the next.
pub proof fn lemma_backoff_bounded(policy: RetryPolicy, failure: nat)
    requires
        failure >= 1,
    ensures
        0 <= backoff_delay(policy, failure) <= policy.max_backoff,
        backoff_delay(policy, failure) <= backoff_delay(policy, failure + 1),
{
    let i = policy.initial_backoff as int;
    let p = pow2((failure - 1) as nat) as int;
    assert(0 <= i * p) by (nonlinear_arith)
        requires
            0 <= i,
            0 <= p,
    ;
    lemma_backoff_doubles(policy, failure);
}

/// What to do after a failed attempt.
#[derive(Clone, Copy, Debug, PartialEq, Eq, Structural)]
pub enum Attempt {
    /// Wait this many milliseconds, then try again.
    RetryAfter(u64),
    /// Wait this many milliseconds, then fail for good: the bound on the
    /// failures is exceeded.
    GiveUpAfter(u64),
}

/// The state of one run of attempts to connect to a service.
#[derive(Debug, PartialEq, Eq)]
pub struct RetryConnector {
    policy: RetryPolicy,
    /// Failures in a row so far.
    failures: u64,
    /// The delay that the next failure is answered with.
    backoff: u64,
}

impl RetryConnector {
    /// The policy that the connector follows.
    pub closed spec fn policy(&self) -> RetryPolicy {
        self.policy
    }

    /// The failures in a row so far.
    pub closed spec fn failures(&self) -> nat {
        self.failures as nat
    }

    /// Whether the connector has given up.
    pub open spec fn exhausted(&self) -> bool {
        is_fatal(self.policy(), self.failures())
    }

    #[verifier::type_invariant]
    spec fn consistent(&self) -> bool {
        &&& self.failures <= self.policy.max_retries + 1
        &&& self.backoff == backoff_delay(self.policy, (self.failures + 1) as nat)
    }

    /// A connector that follows `policy` and has not failed yet.
    pub fn new(policy: RetryPolicy) -> (connector: Self)
        ensures
            connector.policy() == policy,
            connector.failures() == 0,
    {
        let backoff = if policy.initial_backoff <= policy.max_backoff {
            policy.initial_backoff
        } else {
            policy.max_backoff
        };
        assert(policy.initial_backoff * 1 == policy.initial_backoff);
        RetryConnector { policy, failures: 0, backoff }
    }

    /// A connector with the usual policy: a tenth of a second at first, two
    /// minutes at most, ten failures borne.
    pub fn standard() -> (connector: Self)
        ensures
            connector.policy() == (RetryPolicy {
                initial_backoff: INITIAL_BACKOFF,
                max_backoff: MAX_BACKOFF,
                max_retries: MAX_RETRIES,
            }),
            connector.failures() == 0,
    {
        RetryConnector::new(
            RetryPolicy {
                initial_backoff: INITIAL_BACKOFF,
                max_backoff: MAX_BACKOFF,
                max_retries: MAX_RETRIES,
            },
        )
    }

    /// The number of failures in a row so far.
    pub fn retries(&self) -> (n: u64)
        ensures
            n == self.failures(),
            n <= self.policy().max_retries + 1,
    {
        proof {
            use_type_invariant(self);
        }
        self.failures
    }

    /// Whether the connector has given up.
    pub fn is_exhausted(&self) -> (exhausted: bool)
        ensures
            exhausted == self.exhausted(),
    {
        self.failures > self.policy.max_retries as u64
    }

    /// Closes `gate` before the service is tried.
    pub fn begin_attempt(&self, gate: &mut ReadinessGate)
        ensures
            !final(gate).ready(),
    {
        gate.observe(ConnectionEvent::AttemptStarted);
    }

    /// Takes note of a connection that stands: `gate` opens and the count
    /// of failures starts anew.
    pub fn on_success(&mut self, gate: &mut ReadinessGate)
        ensures
            final(gate).ready(),
            final(self).policy() == old(self).policy(),
            final(self).failures() == 0,
    {
        gate.observe(ConnectionEvent::Connected);
        let fresh = RetryConnector::new(self.policy);
        *self = fresh;
    }

    /// Takes note that the attempt failed and says how to go on.
    ///
    /// The answer to the `n`-th failure in a row carries the delay
    /// `min(initial * 2^(n-1), cap)`; it is to give up exactly if `n` exceeds
    /// the bound of the policy. A connector that has given up stays so and
    /// counts no further.
    pub fn on_failure(&mut self, gate: &mut ReadinessGate) -> (attempt: Attempt)
        ensures
            !final(gate).ready(),
            final(self).policy() == old(self).policy(),
            final(self).failures() == if old(self).exhausted() {
                old(self).failures()
            } else {
                old(self).failures() + 1
            },
            attempt_delay(attempt) == backoff_delay(old(self).policy(), old(self).failures() + 1),
            attempt is GiveUpAfter <==> is_fatal(old(self).policy(), old(self).failures() + 1),
    {
        proof {
            use_type_invariant(&*self);
        }
        gate.observe(ConnectionEvent::AttemptFailed);
        let policy = self.policy;
        let delay = self.backoff;
        if self.failures > policy.max_retries as u64 {
            return Attempt::GiveUpAfter(delay);
        }
        let failures = self.failures + 1;
        proof {
            lemma_backoff_doubles(policy, failures as nat);
        }
        let next = if delay >= policy.max_backoff - delay {
            policy.max_backoff
        } else {
            delay + delay
        };
        *self = RetryConnector { policy, failures, backoff: next };
        if failures > policy.max_retries as u64 {
            Attempt::GiveUpAfter(delay)
        } else {
            Attempt::RetryAfter(delay)
        }
    }
}

/// The delay that an answer carries.
pub open spec fn attempt_delay(attempt: Attempt) -> int {
    match attempt {
        Attempt::RetryAfter(delay) => delay as int,
        Attempt::GiveUpAfter(delay) => delay as int,
    }
}

} // verus!
