//! Patterns shared by the managers: operation statistics, retry with
//! exponential backoff, and the sorting of a batch's outcomes.

use vstd::prelude::*;
use crate::error::OrchestratorError;

verus! {

/// Common async patterns and utilities for managers.
pub struct ManagerHelpers;

/// Common statistics implementation.
#[derive(Debug, Clone, Copy, PartialEq, Eq, Structural)]
pub struct CommonStatistics {
    pub total_operations: u64,
    pub successful_operations: u64,
    pub failed_operations: u64,
    pub total_execution_time_ms: u64,
}

impl Default for CommonStatistics {
    fn default() -> (r: Self)
        ensures
            r.total_operations == 0,
            r.successful_operations == 0,
            r.failed_operations == 0,
            r.total_execution_time_ms == 0,
    {
        CommonStatistics {
            total_operations: 0,
            successful_operations: 0,
            failed_operations: 0,
            total_execution_time_ms: 0,
        }
    }
}

impl CommonStatistics {
    /// Every operation counted is either a success or a failure.
    pub open spec fn is_consistent(self) -> bool {
        self.total_operations == self.successful_operations + self.failed_operations
    }

    /// Room left for one more operation of `ms` milliseconds.
    pub open spec fn can_record(self, ms: u64) -> bool {
        &&& self.total_operations < u64::MAX
        &&& self.successful_operations < u64::MAX
        &&& self.failed_operations < u64::MAX
        &&& self.total_execution_time_ms + ms <= u64::MAX
    }

    /// The statistics after one more successful operation of `ms` milliseconds.
    pub open spec fn with_success(self, ms: u64) -> CommonStatistics {
        CommonStatistics {
            total_operations: (self.total_operations + 1) as u64,
            successful_operations: (self.successful_operations + 1) as u64,
            failed_operations: self.failed_operations,
            total_execution_time_ms: (self.total_execution_time_ms + ms) as u64,
        }
    }

    /// The statistics after one more failed operation of `ms` milliseconds.
    pub open spec fn with_failure(self, ms: u64) -> CommonStatistics {
        CommonStatistics {
            total_operations: (self.total_operations + 1) as u64,
            successful_operations: self.successful_operations,
            failed_operations: (self.failed_operations + 1) as u64,
            total_execution_time_ms: (self.total_execution_time_ms + ms) as u64,
        }
    }

    /// Records a successful operation that took `execution_time_ms`.
    pub fn update_success(&mut self, execution_time_ms: u64)
        requires
            old(self).total_operations < u64::MAX,
            old(self).successful_operations < u64::MAX,
            old(self).total_execution_time_ms + execution_time_ms <= u64::MAX,
        ensures
            *final(self) == old(self).with_success(execution_time_ms),
    {
        self.total_operations += 1;
        self.successful_operations += 1;
        self.total_execution_time_ms += execution_time_ms;
    }

    /// Records a failed operation that took `execution_time_ms`.
    pub fn update_failure(&mut self, execution_time_ms: u64)
        requires
            old(self).total_operations < u64::MAX,
            old(self).failed_operations < u64::MAX,
            old(self).total_execution_time_ms + execution_time_ms <= u64::MAX,
        ensures
            *final(self) == old(self).with_failure(execution_time_ms),
    {
        self.total_operations += 1;
        self.failed_operations += 1;
        self.total_execution_time_ms += execution_time_ms;
    }
}

/// Recording a success or a failure adds exactly one operation and its time,
/// and keeps every operation counted as exactly one of success or failure.
pub proof fn lemma_statistics_stay_consistent(before: CommonStatistics, ms: u64)
    requires
        before.is_consistent(),
        before.can_record(ms),
    ensures
        before.with_success(ms).is_consistent(),
        before.with_failure(ms).is_consistent(),
        before.with_success(ms).total_operations == before.total_operations + 1,
        before.with_failure(ms).total_operations == before.total_operations + 1,
        before.with_success(ms).total_execution_time_ms == before.total_execution_time_ms + ms,
        before.with_failure(ms).total_execution_time_ms == before.total_execution_time_ms + ms,
{
}

/// Trait for command validation.
pub trait CommandValidator {
    type Command;

    fn validate_command(&self, command: &Self::Command) -> Result<(), OrchestratorError>;
}

/// What a retry loop does after one attempt.
#[derive(Debug, Clone, Copy, PartialEq, Eq, Structural)]
pub enum BackoffStep {
    /// The attempt succeeded: hand its result back.
    Succeed,
    /// The attempt failed and it was the last one allowed: hand the error back.
    GiveUp,
    /// The attempt failed: sleep `wait_ms`, then try again with `next_delay_ms`.
    Retry { wait_ms: u64, next_delay_ms: u64 },
}

/// The step of a retry loop with exponential backoff after attempt `attempt`
/// (counted from 0) out of `max_retries + 1`, with the current delay.
pub open spec fn backoff_step_spec(
    attempt: u32,
    max_retries: u32,
    delay_ms: u64,
    succeeded: bool,
) -> BackoffStep {
    if succeeded {
        BackoffStep::Succeed
    } else if attempt >= max_retries {
        BackoffStep::GiveUp
    } else {
        BackoffStep::Retry { wait_ms: delay_ms, next_delay_ms: (2 * delay_ms) as u64 }
    }
}

/// The delay before the retry that follows attempt `k`: the initial delay,
/// doubled once per earlier failure.
pub open spec fn backoff_delay(initial_ms: nat, k: nat) -> nat
    decreases k,
{
    if k == 0 {
        initial_ms
    } else {
        2 * backoff_delay(initial_ms, (k - 1) as nat)
    }
}

impl ManagerHelpers {
    /// Decides what a retry loop with exponential backoff does after one
    /// attempt: succeed, give up after the last allowed attempt, or wait the
    /// current delay and double it.
    pub fn backoff_step(attempt: u32, max_retries: u32, delay_ms: u64, succeeded: bool) -> (r:
        BackoffStep)
        requires
            !succeeded && attempt < max_retries ==> 2 * delay_ms <= u64::MAX,
        ensures
            r == backoff_step_spec(attempt, max_retries, delay_ms, succeeded),
    {
        if succeeded {
            BackoffStep::Succeed
        } else if attempt >= max_retries {
            BackoffStep::GiveUp
        } else {
            BackoffStep::Retry { wait_ms: delay_ms, next_delay_ms: delay_ms * 2 }
        }
    }

    /// Sorts the outcomes of a batch into the results of the items that
    /// succeeded and the errors of those that failed, each in batch order.
    pub fn partition_outcomes<R>(outcomes: Vec<Result<R, OrchestratorError>>) -> (r: (
        Vec<R>,
        Vec<OrchestratorError>,
    ))
        ensures
            r.0@ == oks_of(outcomes@),
            r.1@ == errs_of(outcomes@),
    {
        let mut results: Vec<R> = Vec::new();
        let mut errors: Vec<OrchestratorError> = Vec::new();
        let mut rest = outcomes;
        let ghost all = outcomes@;
        let ghost n = all.len();
        while rest.len() > 0
            invariant
                rest@.len() <= n,
                n == all.len(),
                rest@ =~= all.subrange(n - rest@.len(), n as int),
                results@ == oks_of(all.subrange(0, n - rest@.len())),
                errors@ == errs_of(all.subrange(0, n - rest@.len())),
            decreases rest.len(),
        {
            let ghost k = n - rest@.len();
            let item = rest.remove(0);
            proof {
                assert(item == all[k]);
                lemma_outcomes_push(all.subrange(0, k), all[k]);
                assert(all.subrange(0, k + 1) =~= all.subrange(0, k).push(all[k]));
            }
            match item {
                Ok(v) => results.push(v),
                Err(e) => errors.push(e),
            }
        }
        proof {
            assert(all.subrange(0, n as int) =~= all);
        }
        (results, errors)
    }
}

/// The values of the successes among `s`, in order.
pub open spec fn oks_of<R>(s: Seq<Result<R, OrchestratorError>>) -> Seq<R>
    decreases s.len(),
{
    if s.len() == 0 {
        Seq::empty()
    } else {
        let rest = oks_of(s.drop_last());
        match s.last() {
            Ok(v) => rest.push(v),
            Err(_) => rest,
        }
    }
}

/// The errors among `s`, in order.
pub open spec fn errs_of<R>(s: Seq<Result<R, OrchestratorError>>) -> Seq<OrchestratorError>
    decreases s.len(),
{
    if s.len() == 0 {
        Seq::empty()
    } else {
        let rest = errs_of(s.drop_last());
        match s.last() {
            Ok(_) => rest,
            Err(e) => rest.push(e),
        }
    }
}

proof fn lemma_outcomes_push<R>(s: Seq<Result<R, OrchestratorError>>, x: Result<R, OrchestratorError>)
    ensures
        oks_of(s.push(x)) == (match x {
            Ok(v) => oks_of(s).push(v),
            Err(_) => oks_of(s),
        }),
        errs_of(s.push(x)) == (match x {
            Ok(_) => errs_of(s),
            Err(e) => errs_of(s).push(e),
        }),
{
    assert(s.push(x).drop_last() =~= s);
}

/// Every outcome of a batch lands in exactly one of the two lists.
pub proof fn lemma_partition_counts<R>(s: Seq<Result<R, OrchestratorError>>)
    ensures
        oks_of(s).len() + errs_of(s).len() == s.len(),
    decreases s.len(),
{
    if s.len() > 0 {
        lemma_partition_counts(s.drop_last());
    }
}

/// Following the retry steps from an initial delay, the wait before the retry
/// after failed attempt `k` is the initial delay doubled `k` times.
pub proof fn lemma_backoff_doubles(initial_ms: u64, max_retries: u32, k: u32, delay_ms: u64)
    requires
        k < max_retries,
        delay_ms == backoff_delay(initial_ms as nat, k as nat),
        2 * delay_ms <= u64::MAX,
    ensures
        backoff_step_spec(k, max_retries, delay_ms, false) == (BackoffStep::Retry {
            wait_ms: delay_ms,
            next_delay_ms: (2 * delay_ms) as u64,
        }),
        (2 * delay_ms) as u64 == backoff_delay(initial_ms as nat, (k + 1) as nat),
{
}

/// A retry loop with exponential backoff from attempt `attempt` on, with the
/// current delay, where attempt `k` succeeds when `succeeded[k]` holds: the
/// waits it makes (one before each retry) and whether it ends in success.
/// Each round is the step `backoff_step_spec` decides.
pub open spec fn backoff_run(attempt: u32, max_retries: u32, delay_ms: u64, succeeded: Seq<bool>) -> (
    Seq<u64>,
    bool,
)
    decreases max_retries - attempt,
{
    if attempt > max_retries || succeeded.len() <= attempt {
        (Seq::empty(), false)
    } else {
        match backoff_step_spec(attempt, max_retries, delay_ms, succeeded[attempt as int]) {
            BackoffStep::Succeed => (Seq::empty(), true),
            BackoffStep::GiveUp => (Seq::empty(), false),
            BackoffStep::Retry { wait_ms, next_delay_ms } => {
                let rest = backoff_run((attempt + 1) as u32, max_retries, next_delay_ms, succeeded);
                (seq![wait_ms] + rest.0, rest.1)
            },
        }
    }
}

/// Delays grow with the number of earlier failures.
proof fn lemma_backoff_delay_monotone(initial_ms: nat, a: nat, b: nat)
    requires
        a <= b,
    ensures
        backoff_delay(initial_ms, a) <= backoff_delay(initial_ms, b),
    decreases b,
{
    if a < b {
        lemma_backoff_delay_monotone(initial_ms, a, (b - 1) as nat);
    }
}

/// The retry loop from attempt `a` on, entered with the delay of attempt `a`.
proof fn lemma_backoff_run_from(a: u32, max_retries: u32, initial_ms: u64, succeeded: Seq<bool>)
    requires
        a <= max_retries,
        succeeded.len() > max_retries,
        backoff_delay(initial_ms as nat, max_retries as nat) <= u64::MAX,
    ensures
        ({
            let r = backoff_run(a, max_retries, backoff_delay(initial_ms as nat, a as nat) as u64, succeeded);
            &&& a + r.0.len() <= max_retries
            &&& forall|j: int| 0 <= j < r.0.len() ==> #[trigger] r.0[j] == backoff_delay(initial_ms as nat, (a + j) as nat)
                && !succeeded[a + j]
            &&& r.1 ==> succeeded[a + r.0.len()]
            &&& !r.1 ==> a + r.0.len() == max_retries && !succeeded[max_retries as int]
        }),
    decreases max_retries - a,
{
    let d = backoff_delay(initial_ms as nat, a as nat);
    lemma_backoff_delay_monotone(initial_ms as nat, a as nat, max_retries as nat);
    let r0 = backoff_run(a, max_retries, d as u64, succeeded);
    if succeeded[a as int] {
        assert(r0 == (Seq::<u64>::empty(), true));
    } else if a >= max_retries {
        assert(r0 == (Seq::<u64>::empty(), false));
    }
    if !succeeded[a as int] && a < max_retries {
        lemma_backoff_delay_monotone(initial_ms as nat, (a + 1) as nat, max_retries as nat);
        assert(backoff_delay(initial_ms as nat, (a + 1) as nat) == 2 * d);
        lemma_backoff_run_from((a + 1) as u32, max_retries, initial_ms, succeeded);
        let r = backoff_run(a, max_retries, d as u64, succeeded);
        let rest = backoff_run((a + 1) as u32, max_retries, (2 * d) as u64, succeeded);
        assert(r == (seq![d as u64] + rest.0, rest.1));
        assert(r.0.len() == rest.0.len() + 1);
        assert forall|j: int| 0 <= j < r.0.len() implies #[trigger] r.0[j] == backoff_delay(
            initial_ms as nat,
            (a + j) as nat,
        ) && !succeeded[a + j] by {
            if j > 0 {
                assert(r.0[j] == rest.0[j - 1]);
            }
        }
    }
}

/// Retry with exponential backoff, over the outcomes of its attempts: where
/// attempt `k` (counted from 0) succeeds when `succeeded[k]` holds, the loop
/// driven by `backoff_step` from attempt 0 with the initial delay retries
/// after each failure, waiting the initial delay doubled once per earlier
/// failure, and stops at the first success or after attempt `max_retries`
/// fails; it ends in success exactly when one of the attempts
/// `0..=max_retries` succeeds.
pub proof fn lemma_backoff_retries_until_success_or_limit(
    max_retries: u32,
    initial_ms: u64,
    succeeded: Seq<bool>,
)
    requires
        succeeded.len() > max_retries,
        backoff_delay(initial_ms as nat, max_retries as nat) <= u64::MAX,
    ensures
        ({
            let r = backoff_run(0, max_retries, initial_ms, succeeded);
            &&& r.0.len() <= max_retries
            &&& forall|j: int| 0 <= j < r.0.len() ==> #[trigger] r.0[j] == backoff_delay(initial_ms as nat, j as nat)
                && !succeeded[j]
            &&& r.1 ==> succeeded[r.0.len() as int]
            &&& !r.1 ==> r.0.len() == max_retries && !succeeded[max_retries as int]
            &&& r.1 <==> exists|k: int| 0 <= k <= max_retries && #[trigger] succeeded[k]
        }),
{
    assert(backoff_delay(initial_ms as nat, 0) == initial_ms);
    assert(backoff_delay(initial_ms as nat, 0) as u64 == initial_ms);
    lemma_backoff_run_from(0, max_retries, initial_ms, succeeded);
    let r = backoff_run(0, max_retries, initial_ms, succeeded);
    if r.1 {
        assert(succeeded[r.0.len() as int]);
    } else {
        assert forall|k: int| 0 <= k <= max_retries implies !#[trigger] succeeded[k] by {
            if k < max_retries {
                assert(r.0[k] == backoff_delay(initial_ms as nat, (0 + k) as nat));
            }
        }
    }
}

} // verus!
