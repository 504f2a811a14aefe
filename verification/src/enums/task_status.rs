//! The life cycle of a task.

use vstd::prelude::*;
use crate::error::OrchestratorError;

verus! {

/// Where a task stands.
#[derive(Debug, Clone, Copy, PartialEq, Eq, Structural)]
pub enum TaskStatus {
    Pending,
    InProgress,
    UnderReview,
    Testing,
    Completed,
    Blocked,
    Failed,
    Cancelled,
}

/// The states that are never left.
pub open spec fn task_is_terminal(s: TaskStatus) -> bool {
    s == TaskStatus::Completed || s == TaskStatus::Cancelled
}

/// Whether a task may move from `from` to `to`.
pub open spec fn task_transition_allowed(from: TaskStatus, to: TaskStatus) -> bool {
    ||| from == TaskStatus::Pending && to == TaskStatus::InProgress
    ||| from == TaskStatus::InProgress && to == TaskStatus::UnderReview
    ||| from == TaskStatus::UnderReview && to == TaskStatus::Testing
    ||| from == TaskStatus::Testing && to == TaskStatus::Completed
    ||| (from == TaskStatus::InProgress || from == TaskStatus::UnderReview || from
        == TaskStatus::Testing) && (to == TaskStatus::Blocked || to == TaskStatus::Failed)
    ||| (from == TaskStatus::Blocked || from == TaskStatus::Failed) && to == TaskStatus::InProgress
    ||| !task_is_terminal(from) && to == TaskStatus::Cancelled
}

/// The list of next states, in the order the library gives them.
pub open spec fn task_valid_transitions(s: TaskStatus) -> Seq<TaskStatus> {
    match s {
        TaskStatus::Pending => seq![TaskStatus::InProgress, TaskStatus::Cancelled],
        TaskStatus::InProgress => seq![
            TaskStatus::UnderReview,
            TaskStatus::Blocked,
            TaskStatus::Failed,
            TaskStatus::Cancelled,
        ],
        TaskStatus::UnderReview => seq![
            TaskStatus::Testing,
            TaskStatus::Blocked,
            TaskStatus::Failed,
            TaskStatus::Cancelled,
        ],
        TaskStatus::Testing => seq![
            TaskStatus::Completed,
            TaskStatus::Blocked,
            TaskStatus::Failed,
            TaskStatus::Cancelled,
        ],
        TaskStatus::Completed => seq![],
        TaskStatus::Blocked => seq![TaskStatus::InProgress, TaskStatus::Cancelled],
        TaskStatus::Failed => seq![TaskStatus::InProgress, TaskStatus::Cancelled],
        TaskStatus::Cancelled => seq![],
    }
}

/// The next state of the normal workflow.
pub open spec fn task_progress(s: TaskStatus) -> Option<TaskStatus> {
    match s {
        TaskStatus::Pending => Some(TaskStatus::InProgress),
        TaskStatus::InProgress => Some(TaskStatus::UnderReview),
        TaskStatus::UnderReview => Some(TaskStatus::Testing),
        TaskStatus::Testing => Some(TaskStatus::Completed),
        TaskStatus::Blocked => Some(TaskStatus::InProgress),
        TaskStatus::Failed => Some(TaskStatus::InProgress),
        _ => None,
    }
}

impl Default for TaskStatus {
    fn default() -> (r: Self)
        ensures
            r == TaskStatus::Pending,
    {
        TaskStatus::Pending
    }
}

impl TaskStatus {
    /// Transition to the next valid state based on current state
    pub fn transition_to(&self, next: TaskStatus) -> (r: Result<TaskStatus, OrchestratorError>)
        ensures
            r is Ok <==> task_transition_allowed(*self, next),
            r matches Ok(s) ==> s == next,
            r matches Err(e) ==> e == (OrchestratorError::TaskTransition { from: *self, to: next }),
    {
        match (self, &next) {
            (TaskStatus::Pending, TaskStatus::InProgress) => Ok(next),
            (TaskStatus::InProgress, TaskStatus::UnderReview) => Ok(next),
            (TaskStatus::UnderReview, TaskStatus::Testing) => Ok(next),
            (TaskStatus::Testing, TaskStatus::Completed) => Ok(next),
            (
                TaskStatus::InProgress | TaskStatus::UnderReview | TaskStatus::Testing,
                TaskStatus::Blocked | TaskStatus::Failed,
            ) => Ok(next),
            (TaskStatus::Blocked | TaskStatus::Failed, TaskStatus::InProgress) => Ok(next),
            (
                TaskStatus::Pending
                | TaskStatus::InProgress
                | TaskStatus::UnderReview
                | TaskStatus::Testing
                | TaskStatus::Blocked
                | TaskStatus::Failed,
                TaskStatus::Cancelled,
            ) => Ok(next),
            _ => Err(OrchestratorError::task_transition(*self, next)),
        }
    }

    /// Get valid next states from current state
    pub fn valid_transitions(&self) -> (r: Vec<TaskStatus>)
        ensures
            r@ == task_valid_transitions(*self),
    {
        match self {
            TaskStatus::Pending => vec![TaskStatus::InProgress, TaskStatus::Cancelled],
            TaskStatus::InProgress => vec![
                TaskStatus::UnderReview,
                TaskStatus::Blocked,
                TaskStatus::Failed,
                TaskStatus::Cancelled,
            ],
            TaskStatus::UnderReview => vec![
                TaskStatus::Testing,
                TaskStatus::Blocked,
                TaskStatus::Failed,
                TaskStatus::Cancelled,
            ],
            TaskStatus::Testing => vec![
                TaskStatus::Completed,
                TaskStatus::Blocked,
                TaskStatus::Failed,
                TaskStatus::Cancelled,
            ],
            TaskStatus::Completed => vec![],
            TaskStatus::Blocked | TaskStatus::Failed => {
                vec![TaskStatus::InProgress, TaskStatus::Cancelled]
            },
            TaskStatus::Cancelled => vec![],
        }
    }

    /// Check if the current state is terminal (no further transitions possible)
    pub fn is_terminal(&self) -> (r: bool)
        ensures
            r == task_is_terminal(*self),
    {
        matches!(self, TaskStatus::Completed | TaskStatus::Cancelled)
    }

    /// Attempt to progress to the next state in the normal workflow
    pub fn progress(&self) -> (r: Result<TaskStatus, OrchestratorError>)
        ensures
            r matches Ok(t) ==> task_progress(*self) == Some(t),
            r is Err <==> task_progress(*self) is None,
            r matches Err(e) ==> e == (OrchestratorError::TaskTerminal { status: *self }),
    {
        match self {
            TaskStatus::Pending => Ok(TaskStatus::InProgress),
            TaskStatus::InProgress => Ok(TaskStatus::UnderReview),
            TaskStatus::UnderReview => Ok(TaskStatus::Testing),
            TaskStatus::Testing => Ok(TaskStatus::Completed),
            TaskStatus::Blocked | TaskStatus::Failed => Ok(TaskStatus::InProgress),
            TaskStatus::Completed | TaskStatus::Cancelled => {
                Err(OrchestratorError::task_terminal(*self))
            },
        }
    }
}

/// The list that `valid_transitions` gives holds exactly the states that
/// `transition_to` accepts, each once.
pub proof fn lemma_task_valid_transitions_agree(s: TaskStatus, t: TaskStatus)
    ensures
        task_valid_transitions(s).contains(t) <==> task_transition_allowed(s, t),
        task_valid_transitions(s).no_duplicates(),
{
    if task_transition_allowed(s, t) {
        let v = task_valid_transitions(s);
        if t == TaskStatus::Cancelled {
            assert(v[v.len() - 1] == t);
        } else if t == TaskStatus::Blocked {
            assert(v[1] == t);
        } else if t == TaskStatus::Failed {
            assert(v[2] == t);
        } else {
            assert(v[0] == t);
        }
    }
}

/// Terminal states are exactly those with no way out, and exactly those that
/// `progress` refuses.
pub proof fn lemma_task_terminal_has_no_exit(s: TaskStatus, t: TaskStatus)
    ensures
        task_is_terminal(s) ==> !task_transition_allowed(s, t),
        task_is_terminal(s) <==> task_valid_transitions(s).len() == 0,
        task_is_terminal(s) <==> task_progress(s) is None,
{
}

/// Every task that is not terminal can be cancelled.
pub proof fn lemma_task_cancel_from_any_open_state(s: TaskStatus)
    requires
        !task_is_terminal(s),
    ensures
        task_transition_allowed(s, TaskStatus::Cancelled),
{
}

/// The step that `progress` takes is always a step that `transition_to` accepts.
pub proof fn lemma_task_progress_is_a_transition(s: TaskStatus)
    ensures
        task_progress(s) matches Some(t) ==> task_transition_allowed(s, t),
{
}

/// No state may be entered from itself.
pub proof fn lemma_task_no_self_transition(s: TaskStatus)
    ensures
        !task_transition_allowed(s, s),
{
}

/// A task is completed only after testing, and a blocked or failed task
/// resumes only through `InProgress` (or is cancelled).
pub proof fn lemma_task_completion_gate(s: TaskStatus, t: TaskStatus)
    ensures
        task_transition_allowed(s, TaskStatus::Completed) <==> s == TaskStatus::Testing,
        (s == TaskStatus::Blocked || s == TaskStatus::Failed) && task_transition_allowed(s, t) ==> (
        t == TaskStatus::InProgress || t == TaskStatus::Cancelled),
{
}

} // verus!
