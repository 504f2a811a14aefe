//! The life cycle of a change set, from first code to merge.

use vstd::prelude::*;
use crate::error::OrchestratorError;

verus! {

/// Where a change set stands.
#[derive(Debug, Clone, Copy, PartialEq, Eq, Structural)]
pub enum CodeStatus {
    Pending,
    Coded,
    PullRequest,
    Mergeable,
    Merged,
    Abandoned,
    CIFailed,
    MergeConflict,
    CISuccessful,
}

/// The states that are never left.
pub open spec fn code_is_terminal(s: CodeStatus) -> bool {
    s == CodeStatus::Merged || s == CodeStatus::Abandoned
}

/// Whether a change set may move from `from` to `to`.
pub open spec fn code_transition_allowed(from: CodeStatus, to: CodeStatus) -> bool {
    ||| from == CodeStatus::Pending && to == CodeStatus::Coded
    ||| from == CodeStatus::Coded && to == CodeStatus::PullRequest
    ||| from == CodeStatus::PullRequest && (to == CodeStatus::CISuccessful || to
        == CodeStatus::CIFailed || to == CodeStatus::MergeConflict)
    ||| from == CodeStatus::CISuccessful && to == CodeStatus::Mergeable
    ||| from == CodeStatus::Mergeable && to == CodeStatus::Merged
    ||| (from == CodeStatus::CIFailed || from == CodeStatus::MergeConflict) && to
        == CodeStatus::Coded
    ||| !code_is_terminal(from) && to == CodeStatus::Abandoned
}

/// The list of next states, in the order the library gives them.
pub open spec fn code_valid_transitions(s: CodeStatus) -> Seq<CodeStatus> {
    match s {
        CodeStatus::Pending => seq![CodeStatus::Coded, CodeStatus::Abandoned],
        CodeStatus::Coded => seq![CodeStatus::PullRequest, CodeStatus::Abandoned],
        CodeStatus::PullRequest => seq![
            CodeStatus::CISuccessful,
            CodeStatus::CIFailed,
            CodeStatus::MergeConflict,
            CodeStatus::Abandoned,
        ],
        CodeStatus::CISuccessful => seq![CodeStatus::Mergeable, CodeStatus::Abandoned],
        CodeStatus::CIFailed => seq![CodeStatus::Coded, CodeStatus::Abandoned],
        CodeStatus::MergeConflict => seq![CodeStatus::Coded, CodeStatus::Abandoned],
        CodeStatus::Mergeable => seq![CodeStatus::Merged, CodeStatus::Abandoned],
        CodeStatus::Merged => seq![],
        CodeStatus::Abandoned => seq![],
    }
}

/// The next state of the normal workflow, where the library moves on by itself.
pub open spec fn code_progress(s: CodeStatus) -> Option<CodeStatus> {
    match s {
        CodeStatus::Pending => Some(CodeStatus::Coded),
        CodeStatus::Coded => Some(CodeStatus::PullRequest),
        CodeStatus::CISuccessful => Some(CodeStatus::Mergeable),
        CodeStatus::Mergeable => Some(CodeStatus::Merged),
        CodeStatus::CIFailed => Some(CodeStatus::Coded),
        CodeStatus::MergeConflict => Some(CodeStatus::Coded),
        _ => None,
    }
}

impl Default for CodeStatus {
    fn default() -> (r: Self)
        ensures
            r == CodeStatus::Pending,
    {
        CodeStatus::Pending
    }
}

impl CodeStatus {
    /// Transition to the next valid state based on current state
    pub fn transition_to(&self, next: CodeStatus) -> (r: Result<CodeStatus, OrchestratorError>)
        ensures
            r is Ok <==> code_transition_allowed(*self, next),
            r matches Ok(s) ==> s == next,
            r matches Err(e) ==> e == (OrchestratorError::CodeTransition { from: *self, to: next }),
    {
        match (self, &next) {
            (CodeStatus::Pending, CodeStatus::Coded) => Ok(next),
            (CodeStatus::Coded, CodeStatus::PullRequest) => Ok(next),
            (
                CodeStatus::PullRequest,
                CodeStatus::CISuccessful | CodeStatus::CIFailed | CodeStatus::MergeConflict,
            ) => Ok(next),
            (CodeStatus::CISuccessful, CodeStatus::Mergeable) => Ok(next),
            (CodeStatus::Mergeable, CodeStatus::Merged) => Ok(next),
            (CodeStatus::CIFailed | CodeStatus::MergeConflict, CodeStatus::Coded) => Ok(next),
            (
                CodeStatus::Pending
                | CodeStatus::Coded
                | CodeStatus::PullRequest
                | CodeStatus::CIFailed
                | CodeStatus::MergeConflict
                | CodeStatus::CISuccessful
                | CodeStatus::Mergeable,
                CodeStatus::Abandoned,
            ) => Ok(next),
            _ => Err(OrchestratorError::code_transition(*self, next)),
        }
    }

    /// Get valid next states from current state
    pub fn valid_transitions(&self) -> (r: Vec<CodeStatus>)
        ensures
            r@ == code_valid_transitions(*self),
    {
        match self {
            CodeStatus::Pending => vec![CodeStatus::Coded, CodeStatus::Abandoned],
            CodeStatus::Coded => vec![CodeStatus::PullRequest, CodeStatus::Abandoned],
            CodeStatus::PullRequest => vec![
                CodeStatus::CISuccessful,
                CodeStatus::CIFailed,
                CodeStatus::MergeConflict,
                CodeStatus::Abandoned,
            ],
            CodeStatus::CISuccessful => vec![CodeStatus::Mergeable, CodeStatus::Abandoned],
            CodeStatus::CIFailed => vec![CodeStatus::Coded, CodeStatus::Abandoned],
            CodeStatus::MergeConflict => vec![CodeStatus::Coded, CodeStatus::Abandoned],
            CodeStatus::Mergeable => vec![CodeStatus::Merged, CodeStatus::Abandoned],
            CodeStatus::Merged => vec![],
            CodeStatus::Abandoned => vec![],
        }
    }

    /// Check if the current state is terminal (no further transitions possible)
    pub fn is_terminal(&self) -> (r: bool)
        ensures
            r == code_is_terminal(*self),
    {
        matches!(self, CodeStatus::Merged | CodeStatus::Abandoned)
    }

    /// Check if the current state indicates a failure that needs fixing
    pub fn is_failure_state(&self) -> (r: bool)
        ensures
            r == (*self == CodeStatus::CIFailed || *self == CodeStatus::MergeConflict),
    {
        matches!(self, CodeStatus::CIFailed | CodeStatus::MergeConflict)
    }

    /// Check if CI passed
    pub fn is_ci_passed(&self) -> (r: bool)
        ensures
            r == (*self == CodeStatus::CISuccessful),
    {
        matches!(self, CodeStatus::CISuccessful)
    }

    /// Attempt to progress to the next state in the normal workflow. A pull
    /// request waits for CI (an external action); merged and abandoned change
    /// sets are terminal.
    pub fn progress(&self) -> (r: Result<CodeStatus, OrchestratorError>)
        ensures
            r matches Ok(t) ==> code_progress(*self) == Some(t),
            r is Err <==> code_progress(*self) is None,
            r matches Err(e) ==> if *self == CodeStatus::PullRequest {
                e matches OrchestratorError::CodeExternalAction { message } && message@
                    == "Pull request needs CI to run"@
            } else {
                e == (OrchestratorError::CodeTerminal { status: *self })
            },
    {
        match self {
            CodeStatus::Pending => Ok(CodeStatus::Coded),
            CodeStatus::Coded => Ok(CodeStatus::PullRequest),
            CodeStatus::PullRequest => {
                Err(
                    OrchestratorError::code_external_action(
                        "Pull request needs CI to run".to_owned(),
                    ),
                )
            },
            CodeStatus::CISuccessful => Ok(CodeStatus::Mergeable),
            CodeStatus::Mergeable => Ok(CodeStatus::Merged),
            CodeStatus::CIFailed | CodeStatus::MergeConflict => Ok(CodeStatus::Coded),
            CodeStatus::Merged | CodeStatus::Abandoned => {
                Err(OrchestratorError::code_terminal(*self))
            },
        }
    }
}

/// The list that `valid_transitions` gives holds exactly the states that
/// `transition_to` accepts, each once.
pub proof fn lemma_code_valid_transitions_agree(s: CodeStatus, t: CodeStatus)
    ensures
        code_valid_transitions(s).contains(t) <==> code_transition_allowed(s, t),
        code_valid_transitions(s).no_duplicates(),
{
    if code_transition_allowed(s, t) {
        match s {
            CodeStatus::PullRequest => {
                if t == CodeStatus::CISuccessful {
                    assert(code_valid_transitions(s)[0] == t);
                } else if t == CodeStatus::CIFailed {
                    assert(code_valid_transitions(s)[1] == t);
                } else if t == CodeStatus::MergeConflict {
                    assert(code_valid_transitions(s)[2] == t);
                } else {
                    assert(code_valid_transitions(s)[3] == t);
                }
            },
            _ => {
                if t == CodeStatus::Abandoned {
                    assert(code_valid_transitions(s)[1] == t);
                } else {
                    assert(code_valid_transitions(s)[0] == t);
                }
            },
        }
    }
}

/// Terminal states are exactly those with no way out.
pub proof fn lemma_code_terminal_has_no_exit(s: CodeStatus, t: CodeStatus)
    ensures
        code_is_terminal(s) ==> !code_transition_allowed(s, t),
        code_is_terminal(s) <==> code_valid_transitions(s).len() == 0,
{
}

/// Every state that is not terminal can be abandoned.
pub proof fn lemma_code_abandon_from_any_open_state(s: CodeStatus)
    requires
        !code_is_terminal(s),
    ensures
        code_transition_allowed(s, CodeStatus::Abandoned),
{
}

/// The step that `progress` takes is always a step that `transition_to` accepts;
/// `progress` refuses exactly the terminal states and the pull request that
/// waits for CI.
pub proof fn lemma_code_progress_is_a_transition(s: CodeStatus)
    ensures
        code_progress(s) matches Some(t) ==> code_transition_allowed(s, t),
        code_progress(s) is None <==> (code_is_terminal(s) || s == CodeStatus::PullRequest),
{
}

/// No state may be entered from itself.
pub proof fn lemma_code_no_self_transition(s: CodeStatus)
    ensures
        !code_transition_allowed(s, s),
{
}

/// A change set becomes mergeable only after CI succeeded, and is merged only
/// once mergeable.
pub proof fn lemma_code_merge_gate(s: CodeStatus)
    ensures
        code_transition_allowed(s, CodeStatus::Mergeable) <==> s == CodeStatus::CISuccessful,
        code_transition_allowed(s, CodeStatus::Merged) <==> s == CodeStatus::Mergeable,
{
}

/// From a failure state the only ways on are back to `Coded` or to abandonment.
pub proof fn lemma_code_failure_goes_back_to_coded(s: CodeStatus, t: CodeStatus)
    requires
        s == CodeStatus::CIFailed || s == CodeStatus::MergeConflict,
        code_transition_allowed(s, t),
    ensures
        t == CodeStatus::Coded || t == CodeStatus::Abandoned,
{
}

} // verus!
