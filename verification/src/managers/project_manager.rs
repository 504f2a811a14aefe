//! The decisions of the project manager: which agent takes a task, what a
//! task run asks the model for and what its outcome does to the task and its
//! agent, which tasks of a run in dependency order are run or skipped, the
//! agents a new project's breakdown is planned for, and a project's counts.
//!
//! The manager's loop (the model calls, the files, the event channel) runs
//! around these functions: it hands them plain values and performs what they
//! decide.

use vstd::prelude::*;
use crate::enums::agent_status::{AgentStatus, agent_transition_allowed};
use crate::enums::issue_status::IssueStatus;
use crate::enums::priority::{Priority, priority_debug_name};
use crate::enums::task_status::{TaskStatus, task_transition_allowed};
use crate::enums::tech_stack::{TechStack, tech_stack_debug_name};
use crate::error::OrchestratorError;
use crate::text::{join_strings, join_with, opt_text, texts};

verus! {

/// What happened during a task run, as the project's event stream reports
/// it; the caller attaches the identities of the task and its agent.
#[derive(Debug, Clone, Copy, PartialEq, Eq, Structural)]
pub enum RunEvent {
    TaskStatusChanged { old_status: TaskStatus, new_status: TaskStatus },
    TaskAssigned,
    TaskCompleted,
    AgentStatusChanged { old_status: AgentStatus, new_status: AgentStatus },
    AgentStartedWorking,
    AgentFinishedWorking,
    McpTaskExecutionStarted,
    McpTaskExecutionCompleted { success: bool },
    McpFeatureDevelopmentStarted,
    McpFeatureDevelopmentCompleted { actions_count: usize },
}

/// Whether an agent in this state may take new work.
pub open spec fn available(s: AgentStatus) -> bool {
    s == AgentStatus::Idle || s == AgentStatus::Active
}

/// A task's status after it is asked to move to `to`: `to` where its status
/// rules allow the move, else unchanged.
pub open spec fn task_after(s: TaskStatus, to: TaskStatus) -> TaskStatus {
    if task_transition_allowed(s, to) {
        to
    } else {
        s
    }
}

/// An agent's status after it is asked to move to `to`: `to` where its status
/// rules allow the move, else unchanged.
pub open spec fn agent_after(s: AgentStatus, to: AgentStatus) -> AgentStatus {
    if agent_transition_allowed(s, to) {
        to
    } else {
        s
    }
}

/// The first agent that is available for new work, by its index in
/// `statuses`; `None` where none is.
pub fn choose_agent(statuses: &Vec<AgentStatus>) -> (r: Option<usize>)
    ensures
        match r {
            Some(i) => i < statuses@.len() && available(statuses@[i as int]) && forall|j: int|
                0 <= j < i ==> !available(#[trigger] statuses@[j]),
            None => forall|j: int| 0 <= j < statuses@.len() ==> !available(#[trigger] statuses@[j]),
        },
{
    let mut i: usize = 0;
    while i < statuses.len()
        invariant
            i <= statuses@.len(),
            forall|j: int| 0 <= j < i ==> !available(#[trigger] statuses@[j]),
        decreases statuses.len() - i,
    {
        if statuses[i].is_available() {
            return Some(i);
        }
        i = i + 1;
    }
    None
}

/// How a task run begins: the task's status, the agent newly assigned to it
/// (by index) and that agent's status, and the events to report.
pub struct RunStart {
    pub task_status: TaskStatus,
    pub agent: Option<usize>,
    pub agent_status: Option<AgentStatus>,
    pub events: Vec<RunEvent>,
}

/// The events of a run's beginning: the task's move to `InProgress` where it
/// moved, the new agent's start where one was assigned, then the start of the
/// model call.
pub open spec fn start_events(task_moved: bool, agent_assigned: bool) -> Seq<RunEvent> {
    (if task_moved {
        seq![
            RunEvent::TaskStatusChanged {
                old_status: TaskStatus::Pending,
                new_status: TaskStatus::InProgress,
            },
        ]
    } else {
        Seq::empty()
    }) + (if agent_assigned {
        seq![
            RunEvent::AgentStatusChanged {
                old_status: AgentStatus::Idle,
                new_status: AgentStatus::Working,
            },
            RunEvent::AgentStartedWorking,
            RunEvent::TaskAssigned,
        ]
    } else {
        Seq::empty()
    }) + seq![RunEvent::McpTaskExecutionStarted, RunEvent::McpFeatureDevelopmentStarted]
}

/// Begins the run of a task in state `task_status`: the task moves to
/// `InProgress` where its rules allow; a task without an agent gets the first
/// available one of `agent_statuses`, which starts working; a task that has
/// one keeps it.
pub fn begin_task_run(task_status: TaskStatus, already_assigned: bool, agent_statuses: &Vec<
    AgentStatus,
>) -> (r: RunStart)
    ensures
        r.task_status == task_after(task_status, TaskStatus::InProgress),
        already_assigned ==> r.agent is None,
        !already_assigned ==> match r.agent {
            Some(i) => i < agent_statuses@.len() && available(agent_statuses@[i as int])
                && forall|j: int| 0 <= j < i ==> !available(#[trigger] agent_statuses@[j]),
            None => forall|j: int|
                0 <= j < agent_statuses@.len() ==> !available(#[trigger] agent_statuses@[j]),
        },
        r.agent_status == (if r.agent is Some {
            Some(AgentStatus::Working)
        } else {
            None::<AgentStatus>
        }),
        r.events@ == start_events(
            task_transition_allowed(task_status, TaskStatus::InProgress),
            r.agent is Some,
        ),
{
    let mut events: Vec<RunEvent> = Vec::new();
    let new_status = match task_status.transition_to(TaskStatus::InProgress) {
        Ok(s) => {
            events.push(
                RunEvent::TaskStatusChanged {
                    old_status: TaskStatus::Pending,
                    new_status: TaskStatus::InProgress,
                },
            );
            s
        },
        Err(_) => task_status,
    };
    let agent = if already_assigned {
        None
    } else {
        choose_agent(agent_statuses)
    };
    let agent_status = match agent {
        Some(i) => {
            events.push(
                RunEvent::AgentStatusChanged {
                    old_status: AgentStatus::Idle,
                    new_status: AgentStatus::Working,
                },
            );
            events.push(RunEvent::AgentStartedWorking);
            events.push(RunEvent::TaskAssigned);
            Some(AgentStatus::Working)
        },
        None => None,
    };
    events.push(RunEvent::McpTaskExecutionStarted);
    events.push(RunEvent::McpFeatureDevelopmentStarted);
    proof {
        assert(events@ =~= start_events(
            task_transition_allowed(task_status, TaskStatus::InProgress),
            agent is Some,
        ));
    }
    RunStart { task_status: new_status, agent, agent_status, events }
}

/// How a task run ends: the task's status, its agent's status and the
/// message of the error the agent reports (where it reports one), and the
/// events to report.
pub struct RunEnd {
    pub task_status: TaskStatus,
    pub agent_status: Option<AgentStatus>,
    pub agent_error: Option<String>,
    pub events: Vec<RunEvent>,
}

/// The events of a run's end. After a model call that gave `actions_count`
/// actions: the end of the call, the task's move to `Completed` where it
/// moved, the agent's finish where it moved to `Active`, and the successful
/// end of the run. After a failed call: the task's move to `Failed` where it
/// moved, the agent's move to `Error` where it moved, and the failed end of
/// the run.
pub open spec fn end_events(
    outcome: Result<usize, Seq<char>>,
    task_moved: bool,
    agent_moved: bool,
) -> Seq<RunEvent> {
    match outcome {
        Ok(n) => seq![RunEvent::McpFeatureDevelopmentCompleted { actions_count: n }] + (
        if task_moved {
            seq![
                RunEvent::TaskStatusChanged {
                    old_status: TaskStatus::InProgress,
                    new_status: TaskStatus::Completed,
                },
                RunEvent::TaskCompleted,
            ]
        } else {
            Seq::empty()
        }) + (if agent_moved {
            seq![
                RunEvent::AgentFinishedWorking,
                RunEvent::AgentStatusChanged {
                    old_status: AgentStatus::Working,
                    new_status: AgentStatus::Active,
                },
            ]
        } else {
            Seq::empty()
        }) + seq![RunEvent::McpTaskExecutionCompleted { success: true }],
        Err(_) => (if task_moved {
            seq![
                RunEvent::TaskStatusChanged {
                    old_status: TaskStatus::InProgress,
                    new_status: TaskStatus::Failed,
                },
            ]
        } else {
            Seq::empty()
        }) + (if agent_moved {
            seq![
                RunEvent::AgentStatusChanged {
                    old_status: AgentStatus::Working,
                    new_status: AgentStatus::Error,
                },
            ]
        } else {
            Seq::empty()
        }) + seq![RunEvent::McpTaskExecutionCompleted { success: false }],
    }
}

/// The status a run's outcome asks of the task: `Completed` after a model
/// call that gave actions, `Failed` after one that failed.
pub open spec fn task_target(outcome: Result<usize, Seq<char>>) -> TaskStatus {
    if outcome is Ok {
        TaskStatus::Completed
    } else {
        TaskStatus::Failed
    }
}

/// The status a run's outcome asks of the agent: `Active` after a model call
/// that gave actions, `Error` after one that failed.
pub open spec fn agent_target(outcome: Result<usize, Seq<char>>) -> AgentStatus {
    if outcome is Ok {
        AgentStatus::Active
    } else {
        AgentStatus::Error
    }
}

/// The view of a run's outcome: the number of actions the model call gave,
/// or the message of its error.
pub open spec fn outcome_view(outcome: Result<usize, String>) -> Result<usize, Seq<char>> {
    match outcome {
        Ok(n) => Ok(n),
        Err(m) => Err(m@),
    }
}

/// Ends the run of a task in state `task_status` whose agent (if it has one)
/// is in state `agent_status`. `outcome` is the number of actions the model
/// call gave, or the message of its error. The task moves to `Completed` or
/// `Failed`, and the agent to `Active` or `Error`, where their rules allow;
/// an agent moved to `Error` reports "Task execution failed: " and the
/// message.
pub fn finish_task_run(
    outcome: &Result<usize, String>,
    task_status: TaskStatus,
    agent_status: Option<AgentStatus>,
) -> (r: RunEnd)
    ensures
        r.task_status == task_after(task_status, task_target(outcome_view(*outcome))),
        r.agent_status == (match agent_status {
            Some(a) => Some(agent_after(a, agent_target(outcome_view(*outcome)))),
            None => None::<AgentStatus>,
        }),
        opt_text(r.agent_error) == (match (outcome, agent_status) {
            (Err(m), Some(a)) => if agent_transition_allowed(a, AgentStatus::Error) {
                Some(("Task execution failed: "@ + m@))
            } else {
                None::<Seq<char>>
            },
            _ => None::<Seq<char>>,
        }),
        r.events@ == end_events(
            outcome_view(*outcome),
            task_transition_allowed(task_status, task_target(outcome_view(*outcome))),
            agent_status matches Some(a) && agent_transition_allowed(
                a,
                agent_target(outcome_view(*outcome)),
            ),
        ),
{
    let mut events: Vec<RunEvent> = Vec::new();
    let ok = outcome.is_ok();
    let task_to = if ok {
        TaskStatus::Completed
    } else {
        TaskStatus::Failed
    };
    let agent_to = if ok {
        AgentStatus::Active
    } else {
        AgentStatus::Error
    };
    if let Ok(n) = outcome {
        events.push(RunEvent::McpFeatureDevelopmentCompleted { actions_count: *n });
    }
    let new_task = match task_status.transition_to(task_to) {
        Ok(s) => {
            events.push(RunEvent::TaskStatusChanged { old_status: TaskStatus::InProgress, new_status: s });
            if ok {
                events.push(RunEvent::TaskCompleted);
            }
            s
        },
        Err(_) => task_status,
    };
    let mut agent_error: Option<String> = None;
    let new_agent = match agent_status {
        Some(a) => match a.transition_to(agent_to) {
            Ok(s) => {
                if ok {
                    events.push(RunEvent::AgentFinishedWorking);
                    events.push(
                        RunEvent::AgentStatusChanged {
                            old_status: AgentStatus::Working,
                            new_status: AgentStatus::Active,
                        },
                    );
                } else {
                    events.push(
                        RunEvent::AgentStatusChanged {
                            old_status: AgentStatus::Working,
                            new_status: AgentStatus::Error,
                        },
                    );
                    if let Err(m) = outcome {
                        let mut msg = "Task execution failed: ".to_owned();
                        msg.append(m.as_str());
                        agent_error = Some(msg);
                    }
                }
                Some(s)
            },
            Err(_) => Some(a),
        },
        None => None,
    };
    events.push(RunEvent::McpTaskExecutionCompleted { success: ok });
    proof {
        reveal_strlit("Task execution failed: ");
        assert(events@ =~= end_events(
            outcome_view(*outcome),
            task_transition_allowed(task_status, task_to),
            agent_status matches Some(a) && agent_transition_allowed(a, agent_to),
        ));
    }
    RunEnd { task_status: new_task, agent_status: new_agent, agent_error, events }
}

/// An agent taken for a run ends it available again where the run's model
/// call gave actions, and in `Error` where it failed: the agent chosen by
/// `begin_task_run` is `Working`, and `finish_task_run` moves it on from there.
pub proof fn lemma_run_returns_its_agent(outcome: Result<usize, Seq<char>>)
    ensures
        outcome is Ok ==> agent_after(AgentStatus::Working, agent_target(outcome))
            == AgentStatus::Active && available(AgentStatus::Active),
        outcome is Err ==> agent_after(AgentStatus::Working, agent_target(outcome))
            == AgentStatus::Error && !available(AgentStatus::Error),
{
}

/// Whether every task that a task depends on has completed.
pub open spec fn dependencies_done(depends_on: Seq<u128>, completed: Seq<u128>) -> bool {
    forall|i: int| 0 <= i < depends_on.len() ==> completed.contains(#[trigger] depends_on[i])
}

/// Whether every task in `depends_on` (by id) is among the `completed` ones.
pub fn dependencies_satisfied(depends_on: &Vec<u128>, completed: &Vec<u128>) -> (r: bool)
    ensures
        r == dependencies_done(depends_on@, completed@),
{
    let mut i: usize = 0;
    while i < depends_on.len()
        invariant
            i <= depends_on@.len(),
            forall|k: int| 0 <= k < i ==> completed@.contains(#[trigger] depends_on@[k]),
        decreases depends_on.len() - i,
    {
        let d = depends_on[i];
        let mut found = false;
        let mut j: usize = 0;
        while j < completed.len()
            invariant
                j <= completed@.len(),
                found ==> completed@.contains(d),
                !found ==> forall|m: int| 0 <= m < j ==> completed@[m] != d,
            decreases completed.len() - j,
        {
            if completed[j] == d {
                found = true;
                assert(completed@[j as int] == d);
            }
            j = j + 1;
        }
        if !found {
            assert(!completed@.contains(depends_on@[i as int]));
            return false;
        }
        i = i + 1;
    }
    true
}

/// What a run in dependency order does with its next task.
#[derive(Debug, Clone, Copy, PartialEq, Eq, Structural)]
pub enum TaskRunDecision {
    /// Every task it depends on has completed: run it.
    Run,
    /// Some task it depends on has not completed: skip it, marked failed
    /// (its new status), and report the event.
    SkipAsFailed { new_status: TaskStatus, event: RunEvent },
}

/// Decides on the next task of a run in dependency order: it runs where every
/// task it depends on has completed; otherwise it is skipped, moved to
/// `Failed` where its rules allow, and reported as moved from `Pending` to
/// `Failed`.
pub fn next_task_decision(
    depends_on: &Vec<u128>,
    completed: &Vec<u128>,
    task_status: TaskStatus,
) -> (r: TaskRunDecision)
    ensures
        dependencies_done(depends_on@, completed@) ==> r == TaskRunDecision::Run,
        !dependencies_done(depends_on@, completed@) ==> r == (TaskRunDecision::SkipAsFailed {
            new_status: task_after(task_status, TaskStatus::Failed),
            event: RunEvent::TaskStatusChanged {
                old_status: TaskStatus::Pending,
                new_status: TaskStatus::Failed,
            },
        }),
{
    if dependencies_satisfied(depends_on, completed) {
        TaskRunDecision::Run
    } else {
        let new_status = match task_status.transition_to(TaskStatus::Failed) {
            Ok(s) => s,
            Err(_) => task_status,
        };
        TaskRunDecision::SkipAsFailed {
            new_status,
            event: RunEvent::TaskStatusChanged {
                old_status: TaskStatus::Pending,
                new_status: TaskStatus::Failed,
            },
        }
    }
}

/// Records the run of task `task`: a run that succeeded adds it to the
/// completed tasks; one that failed leaves them as they are and reports the
/// task as moved from `InProgress` to `Failed`.
pub fn after_task_run(task: u128, succeeded: bool, completed: &mut Vec<u128>) -> (r: Option<
    RunEvent,
>)
    ensures
        succeeded ==> final(completed)@ == old(completed)@.push(task) && r is None,
        !succeeded ==> final(completed)@ == old(completed)@ && r == Some(
            RunEvent::TaskStatusChanged {
                old_status: TaskStatus::InProgress,
                new_status: TaskStatus::Failed,
            },
        ),
{
    if succeeded {
        completed.push(task);
        None
    } else {
        Some(
            RunEvent::TaskStatusChanged {
                old_status: TaskStatus::InProgress,
                new_status: TaskStatus::Failed,
            },
        )
    }
}

/// The completed tasks after one task of a run in dependency order: the task
/// (id and dependencies) is added where it ran (its dependencies had all
/// completed) and its run succeeded.
pub open spec fn run_step(completed: Seq<u128>, task: (u128, Seq<u128>), succeeded: bool) -> Seq<
    u128,
> {
    if dependencies_done(task.1, completed) && succeeded {
        completed.push(task.0)
    } else {
        completed
    }
}

/// The completed tasks after a run of `tasks` in order, where the run of the
/// task at index `k` succeeds when `outcomes[k]` holds.
pub open spec fn run_in_order(tasks: Seq<(u128, Seq<u128>)>, outcomes: Seq<bool>) -> Seq<u128>
    decreases tasks.len(),
{
    if tasks.len() == 0 {
        Seq::empty()
    } else {
        run_step(
            run_in_order(tasks.drop_last(), outcomes),
            tasks.last(),
            outcomes[tasks.len() - 1],
        )
    }
}

/// One step of a run is what its two decisions give: the task runs exactly
/// when `next_task_decision` says so, and `after_task_run` then adds it where
/// its run succeeded.
pub proof fn lemma_run_step_follows_the_decisions(
    completed: Seq<u128>,
    task: (u128, Seq<u128>),
    succeeded: bool,
)
    ensures
        dependencies_done(task.1, completed) ==> run_step(completed, task, succeeded) == (if succeeded {
            completed.push(task.0)
        } else {
            completed
        }),
        !dependencies_done(task.1, completed) ==> run_step(completed, task, succeeded) == completed,
{
}

/// A task that a run has not completed stays uncompleted while the run goes
/// on with other tasks.
proof fn lemma_uncompleted_stays_uncompleted(
    tasks: Seq<(u128, Seq<u128>)>,
    outcomes: Seq<bool>,
    i: int,
    j: int,
)
    requires
        0 <= i < j <= tasks.len(),
        forall|a: int, b: int| 0 <= a < b < tasks.len() ==> (#[trigger] tasks[a]).0 != (#[trigger] tasks[b]).0,
        !run_in_order(tasks.take(i + 1), outcomes).contains(tasks[i].0),
    ensures
        !run_in_order(tasks.take(j), outcomes).contains(tasks[i].0),
    decreases j - i,
{
    if j > i + 1 {
        lemma_uncompleted_stays_uncompleted(tasks, outcomes, i, j - 1);
        assert(tasks.take(j).drop_last() =~= tasks.take(j - 1));
        assert(tasks.take(j).last() == tasks[j - 1]);
        assert(tasks[i].0 != tasks[j - 1].0);
    }
}

/// Dependency resolution of a run in order: where task ids are unique and a
/// task did not complete (it failed, or was skipped), every later task that
/// depends on it is skipped, since what it depends on has not completed.
pub proof fn lemma_dependents_of_an_uncompleted_task_are_skipped(
    tasks: Seq<(u128, Seq<u128>)>,
    outcomes: Seq<bool>,
    i: int,
    j: int,
)
    requires
        0 <= i < j < tasks.len(),
        forall|a: int, b: int| 0 <= a < b < tasks.len() ==> (#[trigger] tasks[a]).0 != (#[trigger] tasks[b]).0,
        !run_in_order(tasks.take(i + 1), outcomes).contains(tasks[i].0),
        tasks[j].1.contains(tasks[i].0),
    ensures
        !dependencies_done(tasks[j].1, run_in_order(tasks.take(j), outcomes)),
        run_in_order(tasks.take(j + 1), outcomes) == run_in_order(tasks.take(j), outcomes),
{
    lemma_uncompleted_stays_uncompleted(tasks, outcomes, i, j);
    assert(tasks.take(j + 1).drop_last() =~= tasks.take(j));
    assert(tasks.take(j + 1).last() == tasks[j]);
}

/// Every task that a run completes ran with all it depends on completed
/// before it: each id the run adds had its dependencies in the completed set
/// of that moment.
pub proof fn lemma_completed_tasks_ran_after_their_dependencies(
    tasks: Seq<(u128, Seq<u128>)>,
    outcomes: Seq<bool>,
    k: int,
)
    requires
        0 <= k < tasks.len(),
        run_in_order(tasks.take(k + 1), outcomes) != run_in_order(tasks.take(k), outcomes),
    ensures
        dependencies_done(tasks[k].1, run_in_order(tasks.take(k), outcomes)),
        outcomes[k],
        run_in_order(tasks.take(k + 1), outcomes) == run_in_order(tasks.take(k), outcomes).push(
            tasks[k].0,
        ),
{
    assert(tasks.take(k + 1).drop_last() =~= tasks.take(k));
    assert(tasks.take(k + 1).last() == tasks[k]);
}

/// A project's counts: its tasks (all, completed, in progress, pending), its
/// agents (all, active), its issues (all, open) and its items not yet
/// synchronized.
#[derive(Debug, Clone, Copy, PartialEq, Eq, Structural)]
pub struct ProjectCounts {
    pub total_tasks: usize,
    pub completed_tasks: usize,
    pub in_progress_tasks: usize,
    pub pending_tasks: usize,
    pub total_agents: usize,
    pub active_agents: usize,
    pub total_issues: usize,
    pub open_issues: usize,
    pub unsynced_items: usize,
}

/// How many tasks are in state `t`.
pub open spec fn count_tasks(s: Seq<TaskStatus>, t: TaskStatus) -> nat
    decreases s.len(),
{
    if s.len() == 0 {
        0
    } else {
        count_tasks(s.drop_last(), t) + if s.last() == t {
            1nat
        } else {
            0nat
        }
    }
}

/// How many agents are in state `a`.
pub open spec fn count_agents(s: Seq<AgentStatus>, a: AgentStatus) -> nat
    decreases s.len(),
{
    if s.len() == 0 {
        0
    } else {
        count_agents(s.drop_last(), a) + if s.last() == a {
            1nat
        } else {
            0nat
        }
    }
}

/// How many issues are in state `i`.
pub open spec fn count_issues(s: Seq<IssueStatus>, i: IssueStatus) -> nat
    decreases s.len(),
{
    if s.len() == 0 {
        0
    } else {
        count_issues(s.drop_last(), i) + if s.last() == i {
            1nat
        } else {
            0nat
        }
    }
}

fn count_task_status(v: &Vec<TaskStatus>, t: TaskStatus) -> (r: usize)
    ensures
        r == count_tasks(v@, t),
{
    let mut n: usize = 0;
    let mut i: usize = 0;
    while i < v.len()
        invariant
            i <= v@.len(),
            n == count_tasks(v@.take(i as int), t),
            n <= i,
        decreases v.len() - i,
    {
        assert(v@.take(i + 1).drop_last() =~= v@.take(i as int));
        if v[i] == t {
            n = n + 1;
        }
        i = i + 1;
    }
    assert(v@.take(v@.len() as int) =~= v@);
    n
}

fn count_agent_status(v: &Vec<AgentStatus>, a: AgentStatus) -> (r: usize)
    ensures
        r == count_agents(v@, a),
{
    let mut n: usize = 0;
    let mut i: usize = 0;
    while i < v.len()
        invariant
            i <= v@.len(),
            n == count_agents(v@.take(i as int), a),
            n <= i,
        decreases v.len() - i,
    {
        assert(v@.take(i + 1).drop_last() =~= v@.take(i as int));
        if v[i] == a {
            n = n + 1;
        }
        i = i + 1;
    }
    assert(v@.take(v@.len() as int) =~= v@);
    n
}

fn count_issue_status(v: &Vec<IssueStatus>, s: IssueStatus) -> (r: usize)
    ensures
        r == count_issues(v@, s),
{
    let mut n: usize = 0;
    let mut i: usize = 0;
    while i < v.len()
        invariant
            i <= v@.len(),
            n == count_issues(v@.take(i as int), s),
            n <= i,
        decreases v.len() - i,
    {
        assert(v@.take(i + 1).drop_last() =~= v@.take(i as int));
        if v[i] == s {
            n = n + 1;
        }
        i = i + 1;
    }
    assert(v@.take(v@.len() as int) =~= v@);
    n
}

/// The counts of a project whose tasks, agents and issues are in the given
/// states and which has `unsynced_items` items not yet synchronized. A task
/// counts as completed, in progress or pending by its state, an agent as
/// active in state `Active`, an issue as open in state `Open`.
pub fn project_statistics(
    task_statuses: &Vec<TaskStatus>,
    agent_statuses: &Vec<AgentStatus>,
    issue_statuses: &Vec<IssueStatus>,
    unsynced_items: usize,
) -> (r: ProjectCounts)
    ensures
        r.total_tasks == task_statuses@.len(),
        r.completed_tasks == count_tasks(task_statuses@, TaskStatus::Completed),
        r.in_progress_tasks == count_tasks(task_statuses@, TaskStatus::InProgress),
        r.pending_tasks == count_tasks(task_statuses@, TaskStatus::Pending),
        r.total_agents == agent_statuses@.len(),
        r.active_agents == count_agents(agent_statuses@, AgentStatus::Active),
        r.total_issues == issue_statuses@.len(),
        r.open_issues == count_issues(issue_statuses@, IssueStatus::Open),
        r.unsynced_items == unsynced_items,
        r.completed_tasks + r.in_progress_tasks + r.pending_tasks <= r.total_tasks,
        r.active_agents <= r.total_agents,
        r.open_issues <= r.total_issues,
{
    let r = ProjectCounts {
        total_tasks: task_statuses.len(),
        completed_tasks: count_task_status(task_statuses, TaskStatus::Completed),
        in_progress_tasks: count_task_status(task_statuses, TaskStatus::InProgress),
        pending_tasks: count_task_status(task_statuses, TaskStatus::Pending),
        total_agents: agent_statuses.len(),
        active_agents: count_agent_status(agent_statuses, AgentStatus::Active),
        total_issues: issue_statuses.len(),
        open_issues: count_issue_status(issue_statuses, IssueStatus::Open),
        unsynced_items,
    };
    proof {
        lemma_task_counts_within_total(task_statuses@);
        lemma_agent_count_within_total(agent_statuses@, AgentStatus::Active);
        lemma_issue_count_within_total(issue_statuses@, IssueStatus::Open);
    }
    r
}

/// Completed, in-progress and pending tasks are distinct tasks: together they
/// are no more than all of them.
proof fn lemma_task_counts_within_total(s: Seq<TaskStatus>)
    ensures
        count_tasks(s, TaskStatus::Completed) + count_tasks(s, TaskStatus::InProgress)
            + count_tasks(s, TaskStatus::Pending) <= s.len(),
    decreases s.len(),
{
    if s.len() > 0 {
        lemma_task_counts_within_total(s.drop_last());
    }
}

proof fn lemma_agent_count_within_total(s: Seq<AgentStatus>, a: AgentStatus)
    ensures
        count_agents(s, a) <= s.len(),
    decreases s.len(),
{
    if s.len() > 0 {
        lemma_agent_count_within_total(s.drop_last(), a);
    }
}

proof fn lemma_issue_count_within_total(s: Seq<IssueStatus>, i: IssueStatus)
    ensures
        count_issues(s, i) <= s.len(),
    decreases s.len(),
{
    if s.len() > 0 {
        lemma_issue_count_within_total(s.drop_last(), i);
    }
}

/// The agent types a new project's breakdown is planned for when no agents
/// are loaded, by its technology stack.
pub open spec fn default_agent_names(t: TechStack) -> Seq<Seq<char>> {
    match t {
        TechStack::Rust => seq!["BackendEngineerRust"@],
        TechStack::Vue => seq!["FrontendEngineerVue"@],
        TechStack::React => seq!["FrontendEngineerReact"@],
        TechStack::FullstackRustVue => seq![
            "BackendEngineerRust"@,
            "FrontendEngineerVue"@,
            "DevOpsEngineer"@,
        ],
        TechStack::FullstackRustReact => seq![
            "BackendEngineerRust"@,
            "FrontendEngineerReact"@,
            "DevOpsEngineer"@,
        ],
    }
}

/// The agent types a project on `tech_stack` is planned for when no agents
/// are loaded.
pub fn default_agent_types(tech_stack: TechStack) -> (r: Vec<String>)
    ensures
        texts(r@) == default_agent_names(tech_stack),
{
    let r = match tech_stack {
        TechStack::Rust => vec!["BackendEngineerRust".to_owned()],
        TechStack::Vue => vec!["FrontendEngineerVue".to_owned()],
        TechStack::React => vec!["FrontendEngineerReact".to_owned()],
        TechStack::FullstackRustVue => vec![
            "BackendEngineerRust".to_owned(),
            "FrontendEngineerVue".to_owned(),
            "DevOpsEngineer".to_owned(),
        ],
        TechStack::FullstackRustReact => vec![
            "BackendEngineerRust".to_owned(),
            "FrontendEngineerReact".to_owned(),
            "DevOpsEngineer".to_owned(),
        ],
    };
    assert(texts(r@) =~= default_agent_names(tech_stack));
    r
}

/// The agent types a new project's breakdown is planned for: the names of
/// the agents loaded for it, or the defaults of its stack where none were
/// loaded.
pub fn agent_types_for(loaded_agent_names: Vec<String>, tech_stack: TechStack) -> (r: Vec<String>)
    ensures
        loaded_agent_names@.len() > 0 ==> r@ == loaded_agent_names@,
        loaded_agent_names@.len() == 0 ==> texts(r@) == default_agent_names(tech_stack),
{
    if loaded_agent_names.len() == 0 {
        default_agent_types(tech_stack)
    } else {
        loaded_agent_names
    }
}

/// The context an idea breakdown is asked with: the project's name, stack
/// and path, one per line.
pub open spec fn breakdown_context(name: Seq<char>, t: TechStack, path: Seq<char>) -> Seq<char> {
    "Project: "@ + name + "\nTech Stack: "@ + tech_stack_debug_name(t) + "\nPath: "@ + path
}

/// The context a new project's idea breakdown is asked with.
pub fn idea_breakdown_context(name: &str, tech_stack: TechStack, path: &str) -> (r: String)
    ensures
        r@ == breakdown_context(name@, tech_stack, path@),
{
    let mut r = "Project: ".to_owned();
    r.append(name);
    r.append("\nTech Stack: ");
    r.append(tech_stack.debug_name());
    r.append("\nPath: ");
    r.append(path);
    r
}

/// How long an idea breakdown may take, in seconds.
pub const IDEA_BREAKDOWN_TIMEOUT_SECS: u64 = 120;

/// The result of a new project's idea breakdown. `outcome` is `None` where
/// the call did not answer in time, else what it gave: its answer, or the
/// message of its error. A late answer is a time-out of the call; an error is
/// reported as an internal error, "MCP integration failed: " and the message.
pub fn idea_breakdown_result<T>(outcome: Option<Result<T, String>>) -> (r: Result<
    T,
    OrchestratorError,
>)
    ensures
        match outcome {
            None => r matches Err(OrchestratorError::Timeout { operation }) && operation@
                == "MCP idea_breakdown call"@,
            Some(Ok(x)) => r matches Ok(y) && y == x,
            Some(Err(m)) => r matches Err(OrchestratorError::Internal { message }) && message@
                == "MCP integration failed: "@ + m@,
        },
{
    match outcome {
        None => Err(OrchestratorError::timeout("MCP idea_breakdown call".to_owned())),
        Some(Ok(x)) => Ok(x),
        Some(Err(m)) => {
            let mut message = "MCP integration failed: ".to_owned();
            message.append(m.as_str());
            Err(OrchestratorError::internal(message))
        },
    }
}

/// The text that `{:?}` renders a string as: in double quotes, with quotes,
/// backslashes and control characters escaped.
pub uninterp spec fn debug_text_of(s: Seq<char>) -> Seq<char>;

/// `format!("{:?}", s)`: a string as `{:?}` renders it. The rendering is
/// taken to depend on the string alone; its escapes are not stated.
#[verifier::external_body]
fn debug_text(s: &str) -> (r: String)
    ensures
        r@ == debug_text_of(s@),
{
    format!("{:?}", s)
}

/// A list of strings as `{:?}` renders it: each string rendered, joined
/// with ", " and put in square brackets.
pub open spec fn debug_list_of(ts: Seq<Seq<char>>) -> Seq<char> {
    "["@ + join_with(Seq::new(ts.len(), |i: int| debug_text_of(ts[i])), ", "@) + "]"@
}

/// A list of strings as `{:?}` renders it.
fn debug_list(v: &Vec<String>) -> (r: String)
    ensures
        r@ == debug_list_of(texts(v@)),
{
    let mut parts: Vec<String> = Vec::new();
    let mut i: usize = 0;
    while i < v.len()
        invariant
            i <= v@.len(),
            parts@.len() == i,
            forall|k: int| 0 <= k < i ==> (#[trigger] parts@[k])@ == debug_text_of(v@[k]@),
        decreases v.len() - i,
    {
        parts.push(debug_text(v[i].as_str()));
        i = i + 1;
    }
    assert(texts(parts@) =~= Seq::new(texts(v@).len(), |k: int| debug_text_of(texts(v@)[k])));
    let mut r = "[".to_owned();
    let joined = join_strings(&parts, ", ");
    r.append(joined.as_str());
    r.append("]");
    r
}

/// What a task run asks the model for, besides the task's title, its
/// description and the project's files: the task's complexity, its priority
/// (as `{:?}` renders it) and tags, the stack's name, the titles of the
/// completed tasks it depends on, its acceptance criteria and the context of
/// the code base.
pub struct TaskDevelopmentRequest {
    pub complexity: u8,
    pub priority: String,
    pub tags: Vec<String>,
    pub tech_stack: String,
    pub completed_dependencies: Vec<String>,
    pub acceptance_criteria: Vec<String>,
    pub codebase_context: String,
}

/// The context of the code base a task is developed in: its stack and the
/// titles of the completed tasks it depends on, as `{:?}` renders them.
pub open spec fn development_context(t: TechStack, deps: Seq<Seq<char>>) -> Seq<char> {
    "Project using "@ + tech_stack_debug_name(t) + " technology stack. Task dependencies: "@
        + debug_list_of(deps)
}

/// The titles of the tasks in `deps` that have completed, in order.
pub open spec fn completed_titles(deps: Seq<(String, TaskStatus)>) -> Seq<Seq<char>>
    decreases deps.len(),
{
    if deps.len() == 0 {
        Seq::empty()
    } else {
        completed_titles(deps.drop_last()) + if deps.last().1 == TaskStatus::Completed {
            seq![deps.last().0@]
        } else {
            Seq::empty()
        }
    }
}

/// The titles of the tasks a task depends on (each with its state) that have
/// completed, in order.
pub fn completed_dependency_titles(deps: &Vec<(String, TaskStatus)>) -> (r: Vec<String>)
    ensures
        texts(r@) == completed_titles(deps@),
{
    let mut r: Vec<String> = Vec::new();
    let mut i: usize = 0;
    while i < deps.len()
        invariant
            i <= deps@.len(),
            texts(r@) == completed_titles(deps@.take(i as int)),
        decreases deps.len() - i,
    {
        assert(deps@.take(i + 1).drop_last() =~= deps@.take(i as int));
        if deps[i].1 == TaskStatus::Completed {
            r.push(deps[i].0.clone());
        }
        assert(texts(r@) =~= completed_titles(deps@.take(i + 1)));
        i = i + 1;
    }
    assert(deps@.take(deps@.len() as int) =~= deps@);
    r
}

/// What the run of a task with `description` asks the model for: the
/// task's complexity (5 where it has none), its priority's name and its tags,
/// the stack's name, the completed tasks it depends on, the description as
/// its one acceptance criterion, and the context of the code base.
pub fn task_development_request(
    description: &str,
    complexity: Option<u8>,
    priority: Priority,
    tags: Vec<String>,
    completed_dependencies: Vec<String>,
    tech_stack: TechStack,
) -> (r: TaskDevelopmentRequest)
    ensures
        r.complexity == (match complexity {
            Some(c) => c,
            None => 5u8,
        }),
        r.priority@ == priority_debug_name(priority),
        r.tags@ == tags@,
        r.tech_stack@ == tech_stack_debug_name(tech_stack),
        r.completed_dependencies@ == completed_dependencies@,
        texts(r.acceptance_criteria@) == seq![description@],
        r.codebase_context@ == development_context(tech_stack, texts(completed_dependencies@)),
{
    let mut context = "Project using ".to_owned();
    context.append(tech_stack.debug_name());
    context.append(" technology stack. Task dependencies: ");
    let list = debug_list(&completed_dependencies);
    context.append(list.as_str());
    let criteria = vec![description.to_owned()];
    assert(texts(criteria@) =~= seq![description@]);
    TaskDevelopmentRequest {
        complexity: match complexity {
            Some(c) => c,
            None => 5,
        },
        priority: priority.debug_name().to_owned(),
        tags,
        tech_stack: tech_stack.debug_name().to_owned(),
        completed_dependencies,
        acceptance_criteria: criteria,
        codebase_context: context,
    }
}

/// The events of a task's status update from `old` to `new`: the change,
/// and its completion where it moved to `Completed`.
pub open spec fn status_update_events(old: TaskStatus, new: TaskStatus) -> Seq<RunEvent> {
    seq![RunEvent::TaskStatusChanged { old_status: old, new_status: new }] + if new
        == TaskStatus::Completed {
        seq![RunEvent::TaskCompleted]
    } else {
        Seq::empty()
    }
}

/// Updates a task's status from `old` to `new`: refused with the status
/// rules' error where they do not allow the move, else the new status and
/// the events to report.
pub fn update_task_status(old: TaskStatus, new: TaskStatus) -> (r: Result<
    (TaskStatus, Vec<RunEvent>),
    OrchestratorError,
>)
    ensures
        task_transition_allowed(old, new) ==> (r matches Ok((s, events)) && s == new && events@
            == status_update_events(old, new)),
        !task_transition_allowed(old, new) ==> r == Err::<(TaskStatus, Vec<RunEvent>), OrchestratorError>(
            OrchestratorError::TaskTransition { from: old, to: new },
        ),
{
    match old.transition_to(new) {
        Err(e) => Err(e),
        Ok(s) => {
            let mut events: Vec<RunEvent> = vec![
                RunEvent::TaskStatusChanged { old_status: old, new_status: new },
            ];
            if new == TaskStatus::Completed {
                events.push(RunEvent::TaskCompleted);
            }
            assert(events@ =~= status_update_events(old, new));
            Ok((s, events))
        },
    }
}

/// An event of synchronizing a project's items.
#[derive(Debug, Clone, Copy, PartialEq, Eq, Structural)]
pub enum SyncEvent {
    /// The sync begins, with this many items to sync.
    Started { item_count: usize },
    /// `completed` of `total` items are synced.
    Progress { completed: usize, total: usize },
    /// The sync ended.
    Completed { success_count: usize, error_count: usize },
}

/// The events of synchronizing all of a project's unsynced pull requests,
/// issues and comments: the start with their total, one progress report per
/// pull request, and the end with the pull requests as successes and no
/// errors.
pub open spec fn sync_all_events(pull_requests: nat, issues: nat, comments: nat) -> Seq<SyncEvent> {
    let total = (pull_requests + issues + comments) as usize;
    seq![SyncEvent::Started { item_count: total }] + Seq::new(
        pull_requests,
        |k: int| SyncEvent::Progress { completed: (k + 1) as usize, total },
    ) + seq![SyncEvent::Completed { success_count: pull_requests as usize, error_count: 0 }]
}

/// The events of synchronizing all of a project's unsynced items, given how
/// many pull requests, issues and comments are unsynced.
pub fn sync_all_events_for(pull_requests: usize, issues: usize, comments: usize) -> (r: Vec<
    SyncEvent,
>)
    requires
        pull_requests + issues + comments <= usize::MAX,
    ensures
        r@ == sync_all_events(pull_requests as nat, issues as nat, comments as nat),
{
    let total = pull_requests + issues + comments;
    let mut r: Vec<SyncEvent> = vec![SyncEvent::Started { item_count: total }];
    let mut completed: usize = 0;
    while completed < pull_requests
        invariant
            completed <= pull_requests,
            total == pull_requests + issues + comments,
            r@ == seq![SyncEvent::Started { item_count: total }] + Seq::new(
                completed as nat,
                |k: int| SyncEvent::Progress { completed: (k + 1) as usize, total },
            ),
        decreases pull_requests - completed,
    {
        completed = completed + 1;
        r.push(SyncEvent::Progress { completed, total });
        assert(r@ =~= seq![SyncEvent::Started { item_count: total }] + Seq::new(
            completed as nat,
            |k: int| SyncEvent::Progress { completed: (k + 1) as usize, total },
        ));
    }
    r.push(SyncEvent::Completed { success_count: completed, error_count: 0 });
    assert(r@ =~= sync_all_events(pull_requests as nat, issues as nat, comments as nat));
    r
}

} // verus!
