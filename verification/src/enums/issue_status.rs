//! The life cycle of an issue.

use vstd::prelude::*;
use crate::error::OrchestratorError;
use crate::text::str_eq;

verus! {

/// Where an issue stands.
#[derive(Debug, Clone, Copy, PartialEq, Eq, Structural)]
pub enum IssueStatus {
    Open,
    InProgress,
    InReview,
    Closed,
}

/// Whether an issue may move from `from` to `to`.
pub open spec fn issue_transition_allowed(from: IssueStatus, to: IssueStatus) -> bool {
    ||| from == IssueStatus::Open && to == IssueStatus::InProgress
    ||| from == IssueStatus::InProgress && to == IssueStatus::InReview
    ||| from == IssueStatus::InReview && to == IssueStatus::Closed
    ||| from == IssueStatus::InReview && to == IssueStatus::InProgress
    ||| from == IssueStatus::Closed && to == IssueStatus::Open
    ||| from == IssueStatus::Open && to == IssueStatus::Closed
}

/// The list of next states, in the order the library gives them.
pub open spec fn issue_valid_transitions(s: IssueStatus) -> Seq<IssueStatus> {
    match s {
        IssueStatus::Open => seq![IssueStatus::InProgress, IssueStatus::Closed],
        IssueStatus::InProgress => seq![IssueStatus::InReview],
        IssueStatus::InReview => seq![IssueStatus::Closed, IssueStatus::InProgress],
        IssueStatus::Closed => seq![IssueStatus::Open],
    }
}

/// The next state of the normal workflow.
pub open spec fn issue_progress(s: IssueStatus) -> Option<IssueStatus> {
    match s {
        IssueStatus::Open => Some(IssueStatus::InProgress),
        IssueStatus::InProgress => Some(IssueStatus::InReview),
        IssueStatus::InReview => Some(IssueStatus::Closed),
        IssueStatus::Closed => None,
    }
}

/// The name under which a status is shown and parsed.
pub open spec fn issue_status_name(s: IssueStatus) -> Seq<char> {
    match s {
        IssueStatus::Open => "Open"@,
        IssueStatus::InProgress => "InProgress"@,
        IssueStatus::InReview => "InReview"@,
        IssueStatus::Closed => "Closed"@,
    }
}

/// The status that a text names, if it names one.
pub open spec fn parse_issue_status(s: Seq<char>) -> Option<IssueStatus> {
    if s == "Open"@ {
        Some(IssueStatus::Open)
    } else if s == "InProgress"@ {
        Some(IssueStatus::InProgress)
    } else if s == "InReview"@ {
        Some(IssueStatus::InReview)
    } else if s == "Closed"@ {
        Some(IssueStatus::Closed)
    } else {
        None
    }
}

impl Default for IssueStatus {
    fn default() -> (r: Self)
        ensures
            r == IssueStatus::Open,
    {
        IssueStatus::Open
    }
}

impl std::str::FromStr for IssueStatus {
    type Err = String;

    fn from_str(s: &str) -> (r: Result<Self, Self::Err>)
        ensures
            r matches Ok(st) ==> parse_issue_status(s@) == Some(st),
            r matches Err(m) ==> parse_issue_status(s@) is None && m@ == "Invalid IssueStatus: "@ + s@,
            r is Ok <==> parse_issue_status(s@) is Some,
    {
        IssueStatus::from_name(s)
    }
}

impl IssueStatus {
    /// Transition to the next valid state based on current state
    pub fn transition_to(&self, next: IssueStatus) -> (r: Result<IssueStatus, OrchestratorError>)
        ensures
            r is Ok <==> issue_transition_allowed(*self, next),
            r matches Ok(s) ==> s == next,
            r matches Err(e) ==> e == (OrchestratorError::IssueTransition {
                from: *self,
                to: next,
            }),
    {
        match (self, &next) {
            (IssueStatus::Open, IssueStatus::InProgress) => Ok(next),
            (IssueStatus::InProgress, IssueStatus::InReview) => Ok(next),
            (IssueStatus::InReview, IssueStatus::Closed) => Ok(next),
            (IssueStatus::InReview, IssueStatus::InProgress) => Ok(next),
            (IssueStatus::Closed, IssueStatus::Open) => Ok(next),
            (IssueStatus::Open, IssueStatus::Closed) => Ok(next),
            _ => Err(OrchestratorError::issue_transition(*self, next)),
        }
    }

    /// Get valid next states from current state
    pub fn valid_transitions(&self) -> (r: Vec<IssueStatus>)
        ensures
            r@ == issue_valid_transitions(*self),
    {
        match self {
            IssueStatus::Open => vec![IssueStatus::InProgress, IssueStatus::Closed],
            IssueStatus::InProgress => vec![IssueStatus::InReview],
            IssueStatus::InReview => vec![IssueStatus::Closed, IssueStatus::InProgress],
            IssueStatus::Closed => vec![IssueStatus::Open],
        }
    }

    /// Attempt to progress to the next state in the normal workflow
    pub fn progress(&self) -> (r: Result<IssueStatus, OrchestratorError>)
        ensures
            r matches Ok(t) ==> issue_progress(*self) == Some(t),
            r is Err <==> issue_progress(*self) is None,
            r matches Err(e) ==> e == (OrchestratorError::IssueTerminal {
                status: IssueStatus::Closed,
            }),
    {
        match self {
            IssueStatus::Open => Ok(IssueStatus::InProgress),
            IssueStatus::InProgress => Ok(IssueStatus::InReview),
            IssueStatus::InReview => Ok(IssueStatus::Closed),
            IssueStatus::Closed => Err(OrchestratorError::issue_terminal(IssueStatus::Closed)),
        }
    }

    /// Check if the current state is terminal (no further transitions possible in normal flow)
    pub fn is_terminal(&self) -> (r: bool)
        ensures
            r == (*self == IssueStatus::Closed),
    {
        matches!(self, IssueStatus::Closed)
    }

    /// Check if the issue is active (being worked on)
    pub fn is_active(&self) -> (r: bool)
        ensures
            r == (*self == IssueStatus::InProgress || *self == IssueStatus::InReview),
    {
        matches!(self, IssueStatus::InProgress | IssueStatus::InReview)
    }

    /// The status's name, as it is displayed.
    pub fn to_string(&self) -> (r: String)
        ensures
            r@ == issue_status_name(*self),
    {
        match self {
            IssueStatus::Open => "Open".to_owned(),
            IssueStatus::InProgress => "InProgress".to_owned(),
            IssueStatus::InReview => "InReview".to_owned(),
            IssueStatus::Closed => "Closed".to_owned(),
        }
    }

    /// Parses a status from its name; any other text is refused with the
    /// message `Invalid IssueStatus: <text>`.
    pub fn from_name(s: &str) -> (r: Result<IssueStatus, String>)
        ensures
            r matches Ok(st) ==> parse_issue_status(s@) == Some(st),
            r matches Err(m) ==> parse_issue_status(s@) is None && m@ == "Invalid IssueStatus: "@
                + s@,
            r is Ok <==> parse_issue_status(s@) is Some,
    {
        if str_eq(s, "Open") {
            Ok(IssueStatus::Open)
        } else if str_eq(s, "InProgress") {
            Ok(IssueStatus::InProgress)
        } else if str_eq(s, "InReview") {
            Ok(IssueStatus::InReview)
        } else if str_eq(s, "Closed") {
            Ok(IssueStatus::Closed)
        } else {
            let mut m = "Invalid IssueStatus: ".to_owned();
            m.append(s);
            Err(m)
        }
    }
}

/// The list that `valid_transitions` gives holds exactly the states that
/// `transition_to` accepts, each once.
pub proof fn lemma_issue_valid_transitions_agree(s: IssueStatus, t: IssueStatus)
    ensures
        issue_valid_transitions(s).contains(t) <==> issue_transition_allowed(s, t),
        issue_valid_transitions(s).no_duplicates(),
{
    if issue_transition_allowed(s, t) {
        let v = issue_valid_transitions(s);
        if s == IssueStatus::InReview && t == IssueStatus::InProgress {
            assert(v[1] == t);
        } else if s == IssueStatus::Open && t == IssueStatus::Closed {
            assert(v[1] == t);
        } else {
            assert(v[0] == t);
        }
    }
}

/// `progress` refuses exactly the terminal state, and every step it takes is
/// one that `transition_to` accepts.
pub proof fn lemma_issue_progress_is_a_transition(s: IssueStatus)
    ensures
        issue_progress(s) matches Some(t) ==> issue_transition_allowed(s, t),
        issue_progress(s) is None <==> s == IssueStatus::Closed,
{
}

/// No state may be entered from itself, and every state has a way out: a
/// closed issue can be reopened.
pub proof fn lemma_issue_no_self_transition(s: IssueStatus)
    ensures
        !issue_transition_allowed(s, s),
        issue_valid_transitions(s).len() > 0,
{
}

/// An issue is closed only from `Open` or `InReview`, and reopened only from `Closed`.
pub proof fn lemma_issue_close_and_reopen_gates(s: IssueStatus)
    ensures
        issue_transition_allowed(s, IssueStatus::Closed) <==> (s == IssueStatus::Open || s
            == IssueStatus::InReview),
        issue_transition_allowed(s, IssueStatus::Open) <==> s == IssueStatus::Closed,
{
}

/// Parsing the name of a status gives the status back, and a status is parsed
/// only from its own name.
pub proof fn lemma_issue_status_name_round_trip(st: IssueStatus, s: Seq<char>)
    ensures
        parse_issue_status(issue_status_name(st)) == Some(st),
        parse_issue_status(s) == Some(st) ==> s == issue_status_name(st),
{
    reveal_strlit("Open");
    reveal_strlit("InProgress");
    reveal_strlit("InReview");
    reveal_strlit("Closed");
    assert("Open"@.len() == 4 && "InProgress"@.len() == 10 && "InReview"@.len() == 8);
    assert("Closed"@.len() == 6);
}

} // verus!
