//! Retry policy: which failures are worth retrying, and the decision
//! taken after each attempt of an operation run with bounded retries.

use vstd::prelude::*;
use crate::utils::text::{chars_of, contains_chars, seq_contains};

verus! {

/// Outcome of a run of an operation under the retry policy.
pub enum RetryError<E> {
    /// Every allowed attempt failed with a retryable error.
    Exhausted,
    /// An attempt failed with an error that is not retried.
    OperationFailed(E),
}

/// The lowercase form of a text, as `str::to_lowercase` computes it.
pub uninterp spec fn lowercase(s: Seq<char>) -> Seq<char>;

/// Calls `str::to_lowercase`; its result is named by `lowercase`.
#[verifier::external_body]
fn to_lowercase(s: &str) -> (r: String)
    ensures
        r@ == lowercase(s@),
{
    s.to_lowercase()
}

/// Lowercase fragments that mark an error as transient.
pub open spec fn retryable_patterns() -> Seq<Seq<char>> {
    seq![
        "account balance changed during transaction"@,
        "please try again"@,
        "concurrent"@,
        "lock"@,
        "timeout"@,
        "temporary"@,
        "transient"@,
        "busy"@,
        "deadlock"@,
    ]
}

/// Whether a (lowercased) error text contains one of the transient markers.
pub open spec fn mentions_retryable_pattern(text: Seq<char>) -> bool {
    exists|i: int| 0 <= i < retryable_patterns().len() && seq_contains(text, #[trigger] retryable_patterns()[i])
}

/// Whether an already lowercased error text contains one of the transient markers.
pub fn matches_retryable_pattern(lowered: &str) -> (r: bool)
    ensures
        r == mentions_retryable_pattern(lowered@),
{
    let hay = chars_of(lowered);
    let mut patterns: Vec<&'static str> = Vec::new();
    patterns.push("account balance changed during transaction");
    patterns.push("please try again");
    patterns.push("concurrent");
    patterns.push("lock");
    patterns.push("timeout");
    patterns.push("temporary");
    patterns.push("transient");
    patterns.push("busy");
    patterns.push("deadlock");
    let ghost pats = retryable_patterns();
    assert(patterns@.map_values(|p: &'static str| p@) =~= pats);
    let mut i: usize = 0;
    while i < patterns.len()
        invariant
            pats == retryable_patterns(),
            patterns@.len() == pats.len(),
            forall|k: int| 0 <= k < pats.len() ==> #[trigger] patterns@[k]@ == pats[k],
            hay@ == lowered@,
            0 <= i <= patterns.len(),
            forall|k: int| 0 <= k < i ==> !seq_contains(hay@, #[trigger] pats[k]),
        decreases patterns.len() - i,
    {
        let needle = chars_of(patterns[i]);
        assert(patterns@[i as int]@ == pats[i as int]);
        if contains_chars(&hay, &needle) {
            return true;
        }
        i = i + 1;
    }
    false
}

/// Whether an error message describes a transient failure that is worth
/// retrying (the check ignores letter case).
pub fn is_retryable_error(error: &str) -> (r: bool)
    ensures
        r == mentions_retryable_pattern(lowercase(error@)),
{
    let lowered = to_lowercase(error);
    matches_retryable_pattern(lowered.as_str())
}

/// Bounds of a retried operation; delays are in nanoseconds.
#[derive(Debug, Clone, Copy, PartialEq, Eq)]
pub struct RetryLimits {
    /// Retries allowed after the first attempt.
    pub max_retries: u32,
    /// Delay before the first retry.
    pub initial_delay_ns: u128,
    /// Upper bound of any single delay.
    pub max_delay_ns: u128,
}

/// Progress of a retried operation.
#[derive(Debug, Clone, Copy, PartialEq, Eq)]
pub struct RetryState {
    /// Number of retries made so far (0 during the first attempt).
    pub attempt: u32,
    /// Delay planned before the next retry, before capping.
    pub delay_ns: u128,
}

/// What a finished attempt produced.
#[derive(Debug, Clone, Copy, PartialEq, Eq)]
pub enum AttemptOutcome {
    Succeeded,
    Failed { retryable: bool },
}

/// What to do after an attempt.
#[derive(Debug, Clone, Copy, PartialEq, Eq)]
pub enum RetryDecision {
    /// Hand the attempt's value back.
    ReturnSuccess,
    /// Hand the attempt's error back as `RetryError::OperationFailed`.
    ReturnFailure,
    /// Stop with `RetryError::Exhausted`.
    GiveUp,
    /// Wait about `base_delay_ns` (before jitter), then try again.
    RetryAfter { base_delay_ns: u128 },
}

/// The decision after an attempt, given the retries already made.
pub open spec fn spec_decide(limits: RetryLimits, state: RetryState, outcome: AttemptOutcome) -> RetryDecision {
    match outcome {
        AttemptOutcome::Succeeded => RetryDecision::ReturnSuccess,
        AttemptOutcome::Failed { retryable } => {
            if !retryable {
                RetryDecision::ReturnFailure
            } else if state.attempt >= limits.max_retries {
                RetryDecision::GiveUp
            } else {
                RetryDecision::RetryAfter {
                    base_delay_ns: if state.delay_ns <= limits.max_delay_ns {
                        state.delay_ns
                    } else {
                        limits.max_delay_ns
                    },
                }
            }
        },
    }
}

impl RetryState {
    /// The state before the first attempt.
    pub fn start(limits: &RetryLimits) -> (s: RetryState)
        ensures
            s.attempt == 0,
            s.delay_ns == limits.initial_delay_ns,
    {
        RetryState { attempt: 0, delay_ns: limits.initial_delay_ns }
    }

    /// The state after a retry was scheduled; `next_delay_ns` is the
    /// delay grown by the backoff factor.
    pub fn advance(&self, limits: &RetryLimits, next_delay_ns: u128) -> (s: RetryState)
        requires
            self.attempt < limits.max_retries,
        ensures
            s.attempt == self.attempt + 1,
            s.delay_ns == next_delay_ns,
    {
        RetryState { attempt: self.attempt + 1, delay_ns: next_delay_ns }
    }
}

/// Decides what follows an attempt: success and non-retryable failures end
/// the run at once, a retryable failure is retried while retries remain,
/// after waiting the planned delay capped at the maximum.
pub fn decide(limits: &RetryLimits, state: &RetryState, outcome: AttemptOutcome) -> (d: RetryDecision)
    ensures
        d == spec_decide(*limits, *state, outcome),
{
    match outcome {
        AttemptOutcome::Succeeded => RetryDecision::ReturnSuccess,
        AttemptOutcome::Failed { retryable } => {
            if !retryable {
                RetryDecision::ReturnFailure
            } else if state.attempt >= limits.max_retries {
                RetryDecision::GiveUp
            } else {
                let base = if state.delay_ns <= limits.max_delay_ns {
                    state.delay_ns
                } else {
                    limits.max_delay_ns
                };
                RetryDecision::RetryAfter { base_delay_ns: base }
            }
        },
    }
}

/// Settles a finished attempt: the run ends with the attempt's value, with
/// its error as `OperationFailed` when the error is not retried
/// (`retryable` is ignored for a success), or with `Exhausted` when the
/// retries are spent; otherwise the caller waits `Err` nanoseconds (before
/// jitter) and tries again. This is `decide` applied to the attempt.
pub fn settle_attempt<T, E>(limits: &RetryLimits, state: &RetryState, result: Result<T, E>, retryable: bool) -> (r: Result<Result<T, RetryError<E>>, u128>)
    ensures
        match result {
            Ok(v) => r == Ok::<Result<T, RetryError<E>>, u128>(Ok(v)),
            Err(e) => match spec_decide(*limits, *state, AttemptOutcome::Failed { retryable }) {
                RetryDecision::ReturnFailure => r == Ok::<Result<T, RetryError<E>>, u128>(Err(RetryError::OperationFailed(e))),
                RetryDecision::GiveUp => r == Ok::<Result<T, RetryError<E>>, u128>(Err(RetryError::Exhausted)),
                RetryDecision::RetryAfter { base_delay_ns } => r == Err::<Result<T, RetryError<E>>, u128>(base_delay_ns),
                RetryDecision::ReturnSuccess => false,
            },
        },
{
    match result {
        Ok(v) => Ok(Ok(v)),
        Err(e) => match decide(limits, state, AttemptOutcome::Failed { retryable }) {
            RetryDecision::ReturnFailure => Ok(Err(RetryError::OperationFailed(e))),
            RetryDecision::GiveUp => Ok(Err(RetryError::Exhausted)),
            RetryDecision::RetryAfter { base_delay_ns } => Err(base_delay_ns),
            RetryDecision::ReturnSuccess => Ok(Err(RetryError::OperationFailed(e))),
        },
    }
}

/// Runs the decisions over a sequence of attempt outcomes, starting with
/// `attempt` retries made; returns the final decision and the number of
/// attempts consumed, or `None` if the outcomes ran out first.
pub open spec fn spec_run(limits: RetryLimits, attempt: nat, outcomes: Seq<AttemptOutcome>) -> Option<(RetryDecision, nat)>
    decreases outcomes.len(),
{
    if outcomes.len() == 0 {
        None
    } else {
        let state = RetryState { attempt: attempt as u32, delay_ns: 0 };
        match spec_decide(limits, state, outcomes[0]) {
            RetryDecision::RetryAfter { .. } => match spec_run(limits, attempt + 1, outcomes.drop_first()) {
                Some((d, n)) => Some((d, n + 1)),
                None => None,
            },
            d => Some((d, 1)),
        }
    }
}

/// Whether an outcome is a failure that is retried.
pub open spec fn is_retryable_failure(o: AttemptOutcome) -> bool {
    o == AttemptOutcome::Failed { retryable: true }
}

/// An operation whose attempts all fail with retryable errors is tried
/// exactly `max_retries + 1` times and then given up.
pub proof fn persistent_failure_gives_up(limits: RetryLimits, attempt: nat, outcomes: Seq<AttemptOutcome>)
    requires
        attempt <= limits.max_retries,
        outcomes.len() >= limits.max_retries - attempt + 1,
        forall|i: int| 0 <= i < outcomes.len() ==> is_retryable_failure(#[trigger] outcomes[i]),
    ensures
        spec_run(limits, attempt, outcomes) == Some((RetryDecision::GiveUp, (limits.max_retries - attempt + 1) as nat)),
    decreases limits.max_retries - attempt,
{
    assert(is_retryable_failure(outcomes[0]));
    if attempt < limits.max_retries {
        persistent_failure_gives_up(limits, attempt + 1, outcomes.drop_first());
    }
}

/// An operation that fails with retryable errors `k` times and then
/// succeeds, with `k` within the retry budget, ends in success after
/// `k + 1` attempts.
pub proof fn success_within_budget(limits: RetryLimits, attempt: nat, k: nat, outcomes: Seq<AttemptOutcome>)
    requires
        attempt + k <= limits.max_retries,
        outcomes.len() > k,
        forall|i: int| 0 <= i < k ==> is_retryable_failure(#[trigger] outcomes[i]),
        outcomes[k as int] == AttemptOutcome::Succeeded,
    ensures
        spec_run(limits, attempt, outcomes) == Some((RetryDecision::ReturnSuccess, k + 1)),
    decreases k,
{
    if k > 0 {
        assert(is_retryable_failure(outcomes[0]));
        let rest = outcomes.drop_first();
        assert forall|i: int| 0 <= i < (k - 1) as nat implies is_retryable_failure(#[trigger] rest[i]) by {
            assert(rest[i] == outcomes[i + 1]);
        }
        success_within_budget(limits, attempt + 1, (k - 1) as nat, rest);
    }
}

/// An error that is not retried ends the run after the attempt that
/// produced it.
pub proof fn non_retryable_failure_stops(limits: RetryLimits, attempt: nat, outcomes: Seq<AttemptOutcome>)
    requires
        outcomes.len() > 0,
        outcomes[0] == (AttemptOutcome::Failed { retryable: false }),
    ensures
        spec_run(limits, attempt, outcomes) == Some((RetryDecision::ReturnFailure, 1nat)),
{
}

/// Every run over enough outcomes ends within `max_retries + 1` attempts.
pub proof fn run_is_bounded(limits: RetryLimits, attempt: nat, outcomes: Seq<AttemptOutcome>)
    requires
        attempt <= limits.max_retries,
        outcomes.len() >= limits.max_retries - attempt + 1,
    ensures
        spec_run(limits, attempt, outcomes) matches Some((d, n)) && 1 <= n <= limits.max_retries - attempt + 1
            && !(d is RetryAfter),
    decreases limits.max_retries - attempt,
{
    let state = RetryState { attempt: attempt as u32, delay_ns: 0 };
    match spec_decide(limits, state, outcomes[0]) {
        RetryDecision::RetryAfter { .. } => {
            run_is_bounded(limits, attempt + 1, outcomes.drop_first());
        },
        _ => {},
    }
}

/// The whole run, for any outcomes of its attempts (enough to reach the
/// end of the budget): it takes `k` attempts, `1 <= k <= max_retries + 1`
/// from the start; every attempt before the last failed with a retryable
/// error; the last attempt's outcome decides the result: a success is
/// returned, a non-retryable failure is returned as a failure (even on the
/// last allowed attempt), and a retryable failure gives up exactly when the
/// budget is spent.
pub proof fn run_outcome(limits: RetryLimits, attempt: nat, outcomes: Seq<AttemptOutcome>)
    requires
        attempt <= limits.max_retries,
        outcomes.len() >= limits.max_retries - attempt + 1,
    ensures
        spec_run(limits, attempt, outcomes) matches Some((d, k)) && {
            &&& 1 <= k <= limits.max_retries - attempt + 1
            &&& forall|i: int| 0 <= i < k - 1 ==> is_retryable_failure(#[trigger] outcomes[i])
            &&& (d == RetryDecision::ReturnSuccess <==> outcomes[k - 1] == AttemptOutcome::Succeeded)
            &&& (d == RetryDecision::ReturnFailure <==> outcomes[k - 1] == (AttemptOutcome::Failed { retryable: false }))
            &&& (d == RetryDecision::GiveUp <==> (is_retryable_failure(outcomes[k - 1])
                && k == limits.max_retries - attempt + 1))
            &&& !(d is RetryAfter)
        },
    decreases limits.max_retries - attempt,
{
    let state = RetryState { attempt: attempt as u32, delay_ns: 0 };
    match spec_decide(limits, state, outcomes[0]) {
        RetryDecision::RetryAfter { .. } => {
            let rest = outcomes.drop_first();
            run_outcome(limits, attempt + 1, rest);
            let (d, k1) = spec_run(limits, attempt + 1, rest).unwrap();
            assert(rest[k1 - 1] == outcomes[k1 as int]);
            assert forall|i: int| 0 <= i < k1 implies is_retryable_failure(#[trigger] outcomes[i]) by {
                if i > 0 {
                    assert(rest[i - 1] == outcomes[i]);
                }
            }
        },
        _ => {},
    }
}


/// A (lowercased) error text counts as transient exactly when it contains
/// one of the nine markers; a text such as `insufficient balance` or
/// `currency mismatch: ...` contains none and is not retried.
pub proof fn transient_exactly_with_a_marker(text: Seq<char>)
    ensures
        mentions_retryable_pattern(text) <==> (seq_contains(text, "account balance changed during transaction"@) || seq_contains(text, "please try again"@) || seq_contains(text, "concurrent"@) || seq_contains(text, "lock"@) || seq_contains(text, "timeout"@) || seq_contains(text, "temporary"@) || seq_contains(text, "transient"@) || seq_contains(text, "busy"@) || seq_contains(text, "deadlock"@)),
{
    let pats = retryable_patterns();
    if mentions_retryable_pattern(text) {
        let i = choose|i: int| 0 <= i < pats.len() && seq_contains(text, #[trigger] pats[i]);
        assert(0 <= i < 9);
    }
    if seq_contains(text, "account balance changed during transaction"@) {
        assert(pats[0] == "account balance changed during transaction"@);
    }
    if seq_contains(text, "please try again"@) {
        assert(pats[1] == "please try again"@);
    }
    if seq_contains(text, "concurrent"@) {
        assert(pats[2] == "concurrent"@);
    }
    if seq_contains(text, "lock"@) {
        assert(pats[3] == "lock"@);
    }
    if seq_contains(text, "timeout"@) {
        assert(pats[4] == "timeout"@);
    }
    if seq_contains(text, "temporary"@) {
        assert(pats[5] == "temporary"@);
    }
    if seq_contains(text, "transient"@) {
        assert(pats[6] == "transient"@);
    }
    if seq_contains(text, "busy"@) {
        assert(pats[7] == "busy"@);
    }
    if seq_contains(text, "deadlock"@) {
        assert(pats[8] == "deadlock"@);
    }
}

} // verus!
