use vstd::prelude::*;
use crate::failure::{classify, classify_spec, Classification, FailureKind};

verus! {

/// The bounded exponential backoff policy of the retry wrapper: the delay
/// before the first retry, and the total elapsed-delay budget after which the
/// wrapper gives up.
pub struct RetryPolicy {
    pub base_delay_ms: u64,
    pub max_elapsed_ms: u64,
}

impl RetryPolicy {
    /// A policy is well formed when its base delay is positive, so that the
    /// elapsed budget strictly grows and retrying terminates.
    pub open spec fn wf(self) -> bool {
        self.base_delay_ms >= 1
    }

    /// The default policy: first retry after half a second, doubling, up to
    /// three minutes of accumulated delay.
    pub fn standard() -> (r: RetryPolicy)
        ensures
            r.base_delay_ms == 500,
            r.max_elapsed_ms == 180000,
            r.wf(),
    {
        RetryPolicy { base_delay_ms: 500, max_elapsed_ms: 180000 }
    }
}

/// The state of one retry sequence: the delay the next retry would wait, and
/// the delay spent so far. Each call of the wrapper starts a fresh state.
#[derive(Clone, Copy, PartialEq, Eq, Structural, Debug)]
pub struct RetryState {
    pub next_delay_ms: u64,
    pub elapsed_ms: u64,
}

impl RetryState {
    pub open spec fn wf(self, policy: RetryPolicy) -> bool {
        self.elapsed_ms <= policy.max_elapsed_ms
    }
}

/// Doubling with saturation at the largest representable delay.
pub open spec fn double_saturating(d: u64) -> u64 {
    if d <= u64::MAX / 2 {
        (2 * d) as u64
    } else {
        u64::MAX
    }
}

/// The state after one more retry has been granted: the waited delay is added
/// to the elapsed budget and the next delay doubles.
pub open spec fn advance_state(state: RetryState) -> RetryState {
    RetryState {
        next_delay_ms: double_saturating(state.next_delay_ms),
        elapsed_ms: (state.elapsed_ms + state.next_delay_ms) as u64,
    }
}

/// What the retry wrapper decides after one attempt.
pub enum RetryDecision<R> {
    /// The attempt succeeded: hand its response out.
    Deliver(R),
    /// The failure is terminal: fatal, or the backoff budget is spent.
    GiveUp(FailureKind),
    /// Wait `delay_ms`, then try again with state `next`.
    Backoff { delay_ms: u64, next: RetryState },
}

/// A fresh backoff state under `policy`.
pub fn retry_start(policy: &RetryPolicy) -> (r: RetryState)
    ensures
        r.next_delay_ms == policy.base_delay_ms,
        r.elapsed_ms == 0,
        r.wf(*policy),
{
    RetryState { next_delay_ms: policy.base_delay_ms, elapsed_ms: 0 }
}

/// The decision after one attempt: a success is delivered as it is; a fatal
/// failure is terminal at once; a retryable failure earns one more try if the
/// next delay still fits the budget, and is terminal otherwise.
pub fn retry_step<R>(policy: &RetryPolicy, state: RetryState, outcome: Result<R, FailureKind>) -> (r:
    RetryDecision<R>)
    requires
        state.wf(*policy),
    ensures
        (match outcome {
            Ok(resp) => r matches RetryDecision::Deliver(d) && d == resp,
            Err(f) => {
                if classify_spec(f) is Fatal {
                    r matches RetryDecision::GiveUp(g) && g == f
                } else if state.elapsed_ms + state.next_delay_ms > policy.max_elapsed_ms {
                    r matches RetryDecision::GiveUp(g) && g == f
                } else {
                    r matches RetryDecision::Backoff { delay_ms, next }
                        && delay_ms == state.next_delay_ms
                        && next == advance_state(state)
                        && next.wf(*policy)
                }
            },
        }),
{
    match outcome {
        Ok(resp) => RetryDecision::Deliver(resp),
        Err(f) => {
            match classify(f) {
                Classification::Fatal => RetryDecision::GiveUp(f),
                Classification::Retryable => {
                    if state.next_delay_ms > policy.max_elapsed_ms - state.elapsed_ms {
                        RetryDecision::GiveUp(f)
                    } else {
                        let doubled: u64 = if state.next_delay_ms <= u64::MAX / 2 {
                            2 * state.next_delay_ms
                        } else {
                            u64::MAX
                        };
                        RetryDecision::Backoff {
                            delay_ms: state.next_delay_ms,
                            next: RetryState {
                                next_delay_ms: doubled,
                                elapsed_ms: state.elapsed_ms + state.next_delay_ms,
                            },
                        }
                    }
                },
            }
        },
    }
}

/// What a whole retry sequence returns when the attempts, in order, come back
/// as `outcomes`: the pair of the terminal result and the number of attempts
/// made. The first success or fatal failure is terminal; a retryable failure
/// is terminal when the next delay no longer fits the budget, or when it is
/// the last outcome there is.
pub open spec fn retry_sim<R>(
    policy: RetryPolicy,
    state: RetryState,
    outcomes: Seq<Result<R, FailureKind>>,
) -> (Result<R, FailureKind>, int)
    decreases outcomes.len(),
{
    if outcomes.len() == 0 {
        (Err(FailureKind::Other), 0)
    } else {
        match outcomes[0] {
            Ok(resp) => (Ok(resp), 1),
            Err(f) => {
                if classify_spec(f) is Fatal {
                    (Err(f), 1)
                } else if state.elapsed_ms + state.next_delay_ms > policy.max_elapsed_ms {
                    (Err(f), 1)
                } else if outcomes.len() == 1 {
                    (Err(f), 1)
                } else {
                    let rec = retry_sim(policy, advance_state(state), outcomes.skip(1));
                    (rec.0, rec.1 + 1)
                }
            },
        }
    }
}

/// A retry sequence terminates within its outcomes and returns exactly the
/// outcome of its last attempt: the first success or fatal failure, or, for
/// retryable failures, the failure on which the backoff budget (or the
/// sequence) ran out — never a value of its own making.
pub proof fn lemma_retry_returns_last_attempt<R>(
    policy: RetryPolicy,
    state: RetryState,
    outcomes: Seq<Result<R, FailureKind>>,
)
    requires
        outcomes.len() >= 1,
    ensures
        ({
            let (res, n) = retry_sim(policy, state, outcomes);
            1 <= n <= outcomes.len() && res == outcomes[n - 1]
        }),
    decreases outcomes.len(),
{
    match outcomes[0] {
        Ok(_) => {},
        Err(f) => {
            if classify_spec(f) is Retryable && state.elapsed_ms + state.next_delay_ms
                <= policy.max_elapsed_ms && outcomes.len() > 1 {
                lemma_retry_returns_last_attempt(policy, advance_state(state), outcomes.skip(1));
            }
        },
    }
}

/// Runs one retry sequence whose attempts, in order, come back as `outcomes`,
/// and returns the terminal result with the number of attempts made. The
/// first outcome is the first attempt; each retry consumes the next one.
///
/// A fatal failure is returned unmodified after exactly one attempt; a
/// success is returned at once; retryable failures are retried until the
/// backoff budget or the outcomes run out.
#[verifier::loop_isolation(false)]
pub fn retrying_query<R>(policy: &RetryPolicy, outcomes: Vec<Result<R, FailureKind>>) -> (r: (
    Result<R, FailureKind>,
    usize,
))
    requires
        policy.wf(),
        outcomes@.len() >= 1,
    ensures
        ({
            let sim = retry_sim(
                *policy,
                RetryState { next_delay_ms: policy.base_delay_ms, elapsed_ms: 0 },
                outcomes@,
            );
            r.0 == sim.0 && r.1 as int == sim.1
        }),
        1 <= r.1 <= outcomes@.len(),
        outcomes@[0] is Ok ==> r.1 == 1 && r.0 == outcomes@[0],
        (outcomes@[0] matches Err(f) && classify_spec(f) is Fatal) ==> r.1 == 1 && r.0 == outcomes@[0],
{
    let ghost outcomes0 = outcomes@;
    let ghost state0 = RetryState { next_delay_ms: policy.base_delay_ms, elapsed_ms: 0 };
    let mut rest = outcomes;
    let mut attempts: usize = 0;
    let mut state = retry_start(policy);
    // the exec length witnesses that the outcome count fits a usize
    let _len0: usize = rest.len();
    proof {
        assert(rest@ =~= outcomes0.skip(0));
        assert(outcomes0.len() <= usize::MAX);
    }
    loop
        invariant
            policy.wf(),
            state.wf(*policy),
            outcomes0.len() >= 1,
            outcomes0.len() <= usize::MAX,
            rest@.len() >= 1,
            attempts == outcomes0.len() - rest@.len(),
            rest@ == outcomes0.skip(attempts as int),
            attempts >= 1 ==> (outcomes0[0] matches Err(f) && classify_spec(f) is Retryable),
            retry_sim(*policy, state0, outcomes0) == ({
                let rec = retry_sim(*policy, state, rest@);
                (rec.0, rec.1 + attempts)
            }),
        decreases rest@.len(),
    {
        let ghost prev_rest = rest@;
        let ghost prev_state = state;
        let ghost prev_attempts = attempts as int;
        let out = rest.remove(0);
        proof {
            assert(rest@ =~= prev_rest.skip(1));
        }
        attempts = attempts + 1;
        match out {
            Ok(resp) => {
                proof {
                    assert(retry_sim(*policy, prev_state, prev_rest) == (
                        Ok::<R, FailureKind>(resp),
                        1int,
                    ));
                }
                return (Ok(resp), attempts);
            },
            Err(f) => {
                let terminal: bool = match classify(f) {
                    Classification::Fatal => true,
                    Classification::Retryable => state.next_delay_ms > policy.max_elapsed_ms
                        - state.elapsed_ms,
                };
                if terminal {
                    proof {
                        assert(retry_sim(*policy, prev_state, prev_rest) == (
                            Err::<R, FailureKind>(f),
                            1int,
                        ));
                    }
                    return (Err(f), attempts);
                }
                if rest.len() == 0 {
                    proof {
                        assert(prev_rest.len() == 1);
                        assert(retry_sim(*policy, prev_state, prev_rest) == (
                            Err::<R, FailureKind>(f),
                            1int,
                        ));
                    }
                    return (Err(f), attempts);
                }
                let doubled: u64 = if state.next_delay_ms <= u64::MAX / 2 {
                    2 * state.next_delay_ms
                } else {
                    u64::MAX
                };
                state = RetryState {
                    next_delay_ms: doubled,
                    elapsed_ms: state.elapsed_ms + state.next_delay_ms,
                };
                proof {
                    assert(state == advance_state(prev_state));
                    assert(retry_sim(*policy, prev_state, prev_rest) == ({
                        let rec = retry_sim(*policy, state, prev_rest.skip(1));
                        (rec.0, rec.1 + 1)
                    }));
                    assert(rest@ =~= outcomes0.skip(attempts as int));
                    if prev_attempts == 0 {
                        assert(prev_rest =~= outcomes0);
                        assert(outcomes0[0] == Err::<R, FailureKind>(f));
                    }
                }
            },
        }
    }
}

} // verus!
