//! Trying again after a failure, a bounded number of times.
//!
//! The policy decides; whoever runs the operation does the waiting. After
//! each attempt the policy is asked once, with how many attempts have been
//! made and how the last one went.
use vstd::prelude::*;

verus! {

/// What to do after an attempt.
#[derive(Debug, Clone, Copy, PartialEq, Eq)]
pub enum RetryStep<T, E> {
    /// The attempt succeeded: this is the result.
    Done(T),
    /// The attempt failed and another is due once this many milliseconds
    /// have passed.
    Retry { after_ms: u64 },
    /// The attempt failed and was the last one allowed: this is its error.
    GiveUp(E),
}

/// How often an operation is attempted, and how long to wait in between.
#[derive(Debug, Clone, Copy, PartialEq, Eq, Structural)]
pub struct RetryPolicy {
    /// Attempts in all. A policy of none still lets the first attempt be
    /// made, and gives up when it fails.
    pub max_attempts: u32,
    /// The wait before another attempt, in milliseconds.
    pub backoff_ms: u64,
}

/// The step after an attempt, the `attempts`-th made, that went as `result`
/// says.
pub open spec fn retry_step<T, E>(policy: RetryPolicy, attempts: nat, result: Result<T, E>)
    -> RetryStep<T, E> {
    match result {
        Ok(value) => RetryStep::Done(value),
        Err(e) => if attempts < policy.max_attempts {
            RetryStep::Retry { after_ms: policy.backoff_ms }
        } else {
            RetryStep::GiveUp(e)
        },
    }
}

/// How an operation ends under a policy when its attempts go as `results`
/// says, in turn: the final result and the number of attempts made. `None`
/// where `results` runs out before the policy has settled.
pub open spec fn retry_outcome<T, E>(policy: RetryPolicy, results: Seq<Result<T, E>>, made: nat)
    -> Option<(Result<T, E>, nat)>
    decreases results.len(),
{
    if results.len() == 0 {
        None
    } else {
        match retry_step(policy, made + 1, results[0]) {
            RetryStep::Done(value) => Some((Ok(value), made + 1)),
            RetryStep::GiveUp(e) => Some((Err(e), made + 1)),
            RetryStep::Retry { .. } => retry_outcome(policy, results.skip(1), made + 1),
        }
    }
}

impl RetryPolicy {
    /// A policy of `max_attempts` attempts with `backoff_ms` milliseconds
    /// between two of them.
    pub fn new(max_attempts: u32, backoff_ms: u64) -> (policy: Self)
        ensures
            policy == (RetryPolicy { max_attempts, backoff_ms }),
    {
        RetryPolicy { max_attempts, backoff_ms }
    }

    /// Decides what follows an attempt. `attempts` counts the attempts made
    /// so far, the one that gave `result` included.
    pub fn decide<T, E>(&self, attempts: u32, result: Result<T, E>) -> (step: RetryStep<T, E>)
        ensures
            step == retry_step(*self, attempts as nat, result),
    {
        match result {
            Ok(value) => RetryStep::Done(value),
            Err(e) => {
                if attempts < self.max_attempts {
                    RetryStep::Retry { after_ms: self.backoff_ms }
                } else {
                    RetryStep::GiveUp(e)
                }
            },
        }
    }

    /// Puts a stand-in value in the place of a final failure, where the
    /// caller has one to offer.
    pub fn settle<T, E>(outcome: Result<T, E>, sentinel: Option<T>) -> (settled: Result<T, E>)
        ensures
            settled == match (outcome, sentinel) {
                (Err(_), Some(value)) => Ok(value),
                _ => outcome,
            },
    {
        match outcome {
            Ok(value) => Ok(value),
            Err(e) => match sentinel {
                Some(value) => Ok(value),
                None => Err(e),
            },
        }
    }
}

/// An operation that fails some times and then succeeds comes back with that
/// success, after exactly so many attempts, if the policy allows one attempt
/// more than it failed.
pub proof fn lemma_retry_reaches_success<T, E>(
    policy: RetryPolicy,
    results: Seq<Result<T, E>>,
    failures: nat,
)
    requires
        failures < results.len(),
        failures < policy.max_attempts,
        forall|i: int| 0 <= i < failures ==> (#[trigger] results[i]) is Err,
        results[failures as int] is Ok,
    ensures
        retry_outcome(policy, results, 0) == Some((results[failures as int], failures + 1)),
{
    lemma_retry_from(policy, results, 0, failures);
}

/// An operation that fails as often as the policy allows attempts comes back
/// with the failure of the last attempt allowed, and is not attempted again.
pub proof fn lemma_retry_gives_up<T, E>(policy: RetryPolicy, results: Seq<Result<T, E>>)
    requires
        policy.max_attempts >= 1,
        results.len() >= policy.max_attempts,
        forall|i: int| 0 <= i < policy.max_attempts ==> (#[trigger] results[i]) is Err,
    ensures
        retry_outcome(policy, results, 0) == Some(
            (results[policy.max_attempts - 1], policy.max_attempts as nat),
        ),
{
    lemma_retry_from(policy, results, 0, (policy.max_attempts - 1) as nat);
}

proof fn lemma_retry_from<T, E>(
    policy: RetryPolicy,
    results: Seq<Result<T, E>>,
    made: nat,
    last: nat,
)
    requires
        last < results.len(),
        forall|i: int| 0 <= i < last ==> (#[trigger] results[i]) is Err,
        made + last < policy.max_attempts,
        results[last as int] is Ok || made + last + 1 == policy.max_attempts,
    ensures
        retry_outcome(policy, results, made) == Some((results[last as int], made + last + 1)),
    decreases last,
{
    if last > 0 {
        let rest = results.skip(1);
        assert(results[0] is Err);
        assert(rest[last - 1] == results[last as int]);
        assert forall|i: int| 0 <= i < last - 1 implies (#[trigger] rest[i]) is Err by {
            assert(rest[i] == results[i + 1]);
        }
        lemma_retry_from(policy, rest, made + 1, (last - 1) as nat);
    }
}

} // verus!
