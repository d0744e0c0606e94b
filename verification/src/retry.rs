//! Bounded constant-delay retry policy.
//!
//! A fallible operation is invoked; on failure the harness logs, sleeps the
//! fixed delay and invokes it again, until success or until the attempt
//! budget is spent, in which case the last error is surfaced unchanged. The
//! decision after each failure—retry after the fixed delay, or give up—is
//! taken here; the harness performs the operation and the sleep.

use vstd::prelude::*;

verus! {

/// Fixed delay between attempts, milliseconds.
pub const RETRY_DELAY_MS: u64 = 100;

/// Fixed attempt budget: the most invocations one wrapped operation gets.
pub const RETRY_MAX_TIMES: u64 = 20;

/// The process-wide retry configuration, shared by every retry site.
#[derive(Clone, Copy, Debug, PartialEq, Eq, Structural)]
pub struct RetryPolicy {
    /// Constant delay between attempts, milliseconds.
    pub delay_ms: u64,
    /// Maximum number of invocations before the failure is surfaced.
    pub max_times: u64,
}

/// What the harness must do after a failed attempt.
#[derive(Clone, Copy, Debug, PartialEq, Eq, Structural)]
pub enum RetryAction {
    /// Sleep the given delay, then invoke the operation again.
    Retry { delay_ms: u64 },
    /// The budget is spent: surface the last error unchanged.
    GiveUp,
}

impl RetryPolicy {
    /// A policy is meaningful only with at least one attempt.
    pub open spec fn wf(self) -> bool {
        self.max_times >= 1
    }

    /// The fixed process-wide configuration: 100 ms delay, 20 attempts.
    pub fn standard() -> (p: Self)
        ensures
            p == (RetryPolicy { delay_ms: RETRY_DELAY_MS, max_times: RETRY_MAX_TIMES }),
            p.wf(),
    {
        RetryPolicy { delay_ms: RETRY_DELAY_MS, max_times: RETRY_MAX_TIMES }
    }

    /// Whether another attempt follows after `attempts_made` failed ones.
    pub open spec fn spec_should_retry(self, attempts_made: int) -> bool {
        attempts_made < self.max_times
    }

    /// The decision after a failed attempt, `attempts_made` being the number
    /// of invocations made so far: retry after the fixed delay while the
    /// budget lasts, give up once it is spent.
    pub fn after_failure(&self, attempts_made: u64) -> (a: RetryAction)
        ensures
            a == if self.spec_should_retry(attempts_made as int) {
                RetryAction::Retry { delay_ms: self.delay_ms }
            } else {
                RetryAction::GiveUp
            },
    {
        if attempts_made < self.max_times {
            RetryAction::Retry { delay_ms: self.delay_ms }
        } else {
            RetryAction::GiveUp
        }
    }
}

/// Number of invocations a retry-wrapped run makes, starting after `made`
/// failed attempts, when invocation `i` (counted from 0) succeeds exactly
/// when `outcomes[i]` holds.
pub open spec fn spec_attempts_from(p: RetryPolicy, outcomes: Seq<bool>, made: nat) -> nat
    recommends
        p.wf(),
        p.max_times <= outcomes.len(),
        made < p.max_times,
    decreases p.max_times - made,
        when made < p.max_times
{
    if outcomes[made as int] {
        made + 1
    } else if p.spec_should_retry(made + 1 as int) {
        spec_attempts_from(p, outcomes, made + 1)
    } else {
        made + 1
    }
}

/// Number of invocations a retry-wrapped run makes under policy `p` when
/// invocation `i` succeeds exactly when `outcomes[i]` holds.
pub open spec fn spec_attempts_used(p: RetryPolicy, outcomes: Seq<bool>) -> nat {
    spec_attempts_from(p, outcomes, 0)
}

/// Whether such a run ends in success: the outcome of its last invocation.
pub open spec fn spec_run_succeeds(p: RetryPolicy, outcomes: Seq<bool>) -> bool {
    outcomes[spec_attempts_used(p, outcomes) - 1]
}

proof fn lemma_attempts_from_first_success(p: RetryPolicy, outcomes: Seq<bool>, made: nat, n: int)
    requires
        p.wf(),
        p.max_times <= outcomes.len(),
        made <= n < p.max_times,
        outcomes[n],
        forall|i: int| made <= i < n ==> !outcomes[i],
    ensures
        spec_attempts_from(p, outcomes, made) == n + 1,
    decreases n - made,
{
    if !outcomes[made as int] {
        lemma_attempts_from_first_success(p, outcomes, made + 1, n);
    }
}

proof fn lemma_attempts_from_all_fail(p: RetryPolicy, outcomes: Seq<bool>, made: nat)
    requires
        p.wf(),
        p.max_times <= outcomes.len(),
        made < p.max_times,
        forall|i: int| made <= i < p.max_times ==> !outcomes[i],
    ensures
        spec_attempts_from(p, outcomes, made) == p.max_times,
    decreases p.max_times - made,
{
    if made + 1 < p.max_times {
        lemma_attempts_from_all_fail(p, outcomes, made + 1);
    }
}

/// An operation that fails on its first `n` invocations and succeeds on the
/// next one, with `n` within the budget, is invoked exactly `n + 1` times,
/// and the run returns the success value.
pub proof fn lemma_retry_stops_at_first_success(p: RetryPolicy, outcomes: Seq<bool>, n: int)
    requires
        p.wf(),
        p.max_times <= outcomes.len(),
        0 <= n < p.max_times,
        outcomes[n],
        forall|i: int| 0 <= i < n ==> !outcomes[i],
    ensures
        spec_attempts_used(p, outcomes) == n + 1,
        spec_run_succeeds(p, outcomes),
{
    lemma_attempts_from_first_success(p, outcomes, 0, n);
}

/// An operation that always fails is invoked exactly `max_times` times, and
/// the run surfaces the outcome of the last invocation, a failure.
pub proof fn lemma_retry_exhausts_budget(p: RetryPolicy, outcomes: Seq<bool>)
    requires
        p.wf(),
        p.max_times <= outcomes.len(),
        forall|i: int| 0 <= i < p.max_times ==> !outcomes[i],
    ensures
        spec_attempts_used(p, outcomes) == p.max_times,
        !spec_run_succeeds(p, outcomes),
{
    lemma_attempts_from_all_fail(p, outcomes, 0);
}

proof fn lemma_attempts_from_bounds(p: RetryPolicy, outcomes: Seq<bool>, made: nat)
    requires
        p.wf(),
        p.max_times <= outcomes.len(),
        made < p.max_times,
    ensures
        made < spec_attempts_from(p, outcomes, made) <= p.max_times,
    decreases p.max_times - made,
{
    if !outcomes[made as int] && made + 1 < p.max_times {
        lemma_attempts_from_bounds(p, outcomes, made + 1);
    }
}

/// Every run makes at least one invocation and never exceeds the budget.
pub proof fn lemma_retry_budget_bounds(p: RetryPolicy, outcomes: Seq<bool>)
    requires
        p.wf(),
        p.max_times <= outcomes.len(),
    ensures
        1 <= spec_attempts_used(p, outcomes) <= p.max_times,
{
    lemma_attempts_from_bounds(p, outcomes, 0);
}

} // verus!
