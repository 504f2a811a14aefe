//! The roles an agent can play.

use vstd::prelude::*;

verus! {

/// The specialisation of an agent.
#[derive(Debug, Clone, Copy, PartialEq, Eq, Structural, Hash)]
pub enum AgentType {
    BackendEngineerRust,
    BackendQARust,
    FrontendEngineerVue,
    FrontendQAVue,
    FrontendEngineerReact,
    FrontendQAReact,
    DevOps,
    PerformanceEngineer,
    SecurityEngineer,
    SecurityAuditor,
    CodeReviewEngineer,
    ReleaseManager,
}

impl Default for AgentType {
    fn default() -> (r: Self)
        ensures
            r == AgentType::FrontendEngineerVue,
    {
        AgentType::FrontendEngineerVue
    }
}

} // verus!
