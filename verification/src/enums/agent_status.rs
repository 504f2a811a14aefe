//! The life cycle of an agent.

use vstd::prelude::*;
use crate::error::OrchestratorError;
use crate::text::str_eq;

verus! {

/// The state an agent is in.
#[derive(Debug, Clone, Copy, PartialEq, Eq, Structural)]
pub enum AgentStatus {
    Idle,
    Working,
    Active,
    Error,
    Maintenance,
    Busy,
}

/// Whether an agent may move from `from` to `to`.
pub open spec fn agent_transition_allowed(from: AgentStatus, to: AgentStatus) -> bool {
    match from {
        AgentStatus::Idle => to == AgentStatus::Working || to == AgentStatus::Maintenance,
        AgentStatus::Working => to == AgentStatus::Active || to == AgentStatus::Busy || to
            == AgentStatus::Error || to == AgentStatus::Idle,
        AgentStatus::Active => to == AgentStatus::Working || to == AgentStatus::Busy || to
            == AgentStatus::Error || to == AgentStatus::Idle,
        AgentStatus::Busy => to == AgentStatus::Active || to == AgentStatus::Working || to
            == AgentStatus::Error || to == AgentStatus::Idle,
        AgentStatus::Error => to == AgentStatus::Idle || to == AgentStatus::Maintenance,
        AgentStatus::Maintenance => to == AgentStatus::Idle,
    }
}

/// The name under which a status is shown and parsed.
pub open spec fn agent_status_name(s: AgentStatus) -> Seq<char> {
    match s {
        AgentStatus::Idle => "Idle"@,
        AgentStatus::Working => "Working"@,
        AgentStatus::Active => "Active"@,
        AgentStatus::Error => "Error"@,
        AgentStatus::Maintenance => "Maintenance"@,
        AgentStatus::Busy => "Busy"@,
    }
}

/// The status that a text names, if it names one.
pub open spec fn parse_agent_status(s: Seq<char>) -> Option<AgentStatus> {
    if s == "Idle"@ {
        Some(AgentStatus::Idle)
    } else if s == "Working"@ {
        Some(AgentStatus::Working)
    } else if s == "Active"@ {
        Some(AgentStatus::Active)
    } else if s == "Error"@ {
        Some(AgentStatus::Error)
    } else if s == "Maintenance"@ {
        Some(AgentStatus::Maintenance)
    } else if s == "Busy"@ {
        Some(AgentStatus::Busy)
    } else {
        None
    }
}

impl Default for AgentStatus {
    fn default() -> (r: Self)
        ensures
            r == AgentStatus::Idle,
    {
        AgentStatus::Idle
    }
}

impl std::str::FromStr for AgentStatus {
    type Err = String;

    fn from_str(s: &str) -> (r: Result<Self, Self::Err>)
        ensures
            r matches Ok(st) ==> parse_agent_status(s@) == Some(st),
            r matches Err(m) ==> parse_agent_status(s@) is None && m@ == "Invalid AgentStatus: "@ + s@,
            r is Ok <==> parse_agent_status(s@) is Some,
    {
        AgentStatus::from_name(s)
    }
}

impl AgentStatus {
    /// Transition to the next valid state based on current state
    pub fn transition_to(&self, next: AgentStatus) -> (r: Result<AgentStatus, OrchestratorError>)
        ensures
            r is Ok <==> agent_transition_allowed(*self, next),
            r matches Ok(s) ==> s == next,
            r matches Err(e) ==> e == (OrchestratorError::AgentTransition { from: *self, to: next }),
    {
        match (self, &next) {
            (AgentStatus::Idle, AgentStatus::Working | AgentStatus::Maintenance) => Ok(next),
            (
                AgentStatus::Working,
                AgentStatus::Active | AgentStatus::Busy | AgentStatus::Error | AgentStatus::Idle,
            ) => Ok(next),
            (
                AgentStatus::Active,
                AgentStatus::Working | AgentStatus::Busy | AgentStatus::Error | AgentStatus::Idle,
            ) => Ok(next),
            (
                AgentStatus::Busy,
                AgentStatus::Active | AgentStatus::Working | AgentStatus::Error | AgentStatus::Idle,
            ) => Ok(next),
            (AgentStatus::Error, AgentStatus::Idle | AgentStatus::Maintenance) => Ok(next),
            (AgentStatus::Maintenance, AgentStatus::Idle) => Ok(next),
            _ => Err(OrchestratorError::agent_transition(*self, next)),
        }
    }

    /// Check if the agent is available for new work
    pub fn is_available(&self) -> (r: bool)
        ensures
            r == (*self == AgentStatus::Idle || *self == AgentStatus::Active),
    {
        matches!(self, AgentStatus::Idle | AgentStatus::Active)
    }

    /// Check if the agent is currently working
    pub fn is_working(&self) -> (r: bool)
        ensures
            r == (*self == AgentStatus::Working || *self == AgentStatus::Busy),
    {
        matches!(self, AgentStatus::Working | AgentStatus::Busy)
    }

    /// Check if the agent is in an error state
    pub fn is_error(&self) -> (r: bool)
        ensures
            r == (*self == AgentStatus::Error),
    {
        matches!(self, AgentStatus::Error)
    }

    /// Check if the agent is under maintenance
    pub fn is_maintenance(&self) -> (r: bool)
        ensures
            r == (*self == AgentStatus::Maintenance),
    {
        matches!(self, AgentStatus::Maintenance)
    }

    /// The status's name, as it is displayed.
    pub fn to_string(&self) -> (r: String)
        ensures
            r@ == agent_status_name(*self),
    {
        match self {
            AgentStatus::Idle => "Idle".to_owned(),
            AgentStatus::Working => "Working".to_owned(),
            AgentStatus::Active => "Active".to_owned(),
            AgentStatus::Error => "Error".to_owned(),
            AgentStatus::Maintenance => "Maintenance".to_owned(),
            AgentStatus::Busy => "Busy".to_owned(),
        }
    }

    /// Parses a status from its name; any other text is refused with the
    /// message `Invalid AgentStatus: <text>`.
    pub fn from_name(s: &str) -> (r: Result<AgentStatus, String>)
        ensures
            r matches Ok(st) ==> parse_agent_status(s@) == Some(st),
            r matches Err(m) ==> parse_agent_status(s@) is None && m@ == "Invalid AgentStatus: "@
                + s@,
            r is Ok <==> parse_agent_status(s@) is Some,
    {
        if str_eq(s, "Idle") {
            Ok(AgentStatus::Idle)
        } else if str_eq(s, "Working") {
            Ok(AgentStatus::Working)
        } else if str_eq(s, "Active") {
            Ok(AgentStatus::Active)
        } else if str_eq(s, "Error") {
            Ok(AgentStatus::Error)
        } else if str_eq(s, "Maintenance") {
            Ok(AgentStatus::Maintenance)
        } else if str_eq(s, "Busy") {
            Ok(AgentStatus::Busy)
        } else {
            let mut m = "Invalid AgentStatus: ".to_owned();
            m.append(s);
            Err(m)
        }
    }
}

/// Parsing the name of a status gives the status back, and a status is parsed
/// only from its own name.
pub proof fn lemma_agent_status_name_round_trip(st: AgentStatus, s: Seq<char>)
    ensures
        parse_agent_status(agent_status_name(st)) == Some(st),
        parse_agent_status(s) == Some(st) ==> s == agent_status_name(st),
{
    reveal_strlit("Idle");
    reveal_strlit("Working");
    reveal_strlit("Active");
    reveal_strlit("Error");
    reveal_strlit("Maintenance");
    reveal_strlit("Busy");
    assert("Idle"@[0] != "Busy"@[0]);
    assert("Idle"@.len() == 4 && "Working"@.len() == 7 && "Active"@.len() == 6);
    assert("Error"@.len() == 5 && "Maintenance"@.len() == 11 && "Busy"@.len() == 4);
}

/// No status may be entered from itself.
pub proof fn lemma_agent_no_self_transition(s: AgentStatus)
    ensures
        !agent_transition_allowed(s, s),
{
}

/// Every agent that is not idle can go back to `Idle` in one step.
pub proof fn lemma_agent_can_always_return_to_idle(s: AgentStatus)
    requires
        s != AgentStatus::Idle,
    ensures
        agent_transition_allowed(s, AgentStatus::Idle),
{
}

/// Maintenance is entered only from `Idle` or `Error`, and is left only for `Idle`.
pub proof fn lemma_agent_maintenance_gate(s: AgentStatus, t: AgentStatus)
    ensures
        agent_transition_allowed(s, AgentStatus::Maintenance) <==> (s == AgentStatus::Idle || s
            == AgentStatus::Error),
        agent_transition_allowed(AgentStatus::Maintenance, t) <==> t == AgentStatus::Idle,
{
}

/// An agent in `Error` can not resume work directly: it goes through `Idle` or
/// `Maintenance` first.
pub proof fn lemma_agent_error_does_not_resume_work(t: AgentStatus)
    requires
        agent_transition_allowed(AgentStatus::Error, t),
    ensures
        t == AgentStatus::Idle || t == AgentStatus::Maintenance,
{
}

/// Exactly one of the four status predicates holds of every status: available
/// (`Idle`, `Active`), working (`Working`, `Busy`), error, maintenance.
pub proof fn lemma_agent_predicates_partition(s: AgentStatus)
    ensures
        (s == AgentStatus::Idle || s == AgentStatus::Active) || (s == AgentStatus::Working || s
            == AgentStatus::Busy) || s == AgentStatus::Error || s == AgentStatus::Maintenance,
        !((s == AgentStatus::Idle || s == AgentStatus::Active) && (s == AgentStatus::Working
            || s == AgentStatus::Busy)),
{
}

} // verus!
