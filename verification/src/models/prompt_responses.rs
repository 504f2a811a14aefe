//! Structured payloads of prompt responses. The library does not look inside
//! them: each keeps the JSON document it was read from.

use vstd::prelude::*;

verus! {

/// Tasks proposed for a project idea.
#[derive(Debug, Clone, PartialEq, Eq)]
pub struct TaskInput {
    pub json: String,
}

/// An analysis of a failing agent and how to recover from it.
#[derive(Debug, Clone, PartialEq, Eq)]
pub struct ErrorRecoveryResponse {
    pub json: String,
}

/// A CI/CD failure analysis with its fixes.
#[derive(Debug, Clone, PartialEq, Eq)]
pub struct CiCdFixResponse {
    pub json: String,
}

/// A container deployment configuration.
#[derive(Debug, Clone, PartialEq, Eq)]
pub struct DockerDeploymentResponse {
    pub json: String,
}

/// A quality assurance report.
#[derive(Debug, Clone, PartialEq, Eq)]
pub struct QaAnalysisResponse {
    pub json: String,
}

/// An analysis of how front end and back end APIs agree.
#[derive(Debug, Clone, PartialEq, Eq)]
pub struct ApiSynchronizationResponse {
    pub json: String,
}

/// Performance optimization recommendations.
#[derive(Debug, Clone, PartialEq, Eq)]
pub struct PerformanceOptimizationResponse {
    pub json: String,
}

/// A code review's verdict on a pull request.
#[derive(Debug, Clone, PartialEq, Eq)]
pub struct CodeReviewInput {
    pub json: String,
}

/// The resolution of merge conflicts.
#[derive(Debug, Clone, PartialEq, Eq)]
pub struct ConflictResolutionInput {
    pub json: String,
}

} // verus!
