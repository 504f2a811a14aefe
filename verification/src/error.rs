//! Centralized error handling for the orchestrator.

use vstd::prelude::*;
use crate::enums::agent_status::AgentStatus;
use crate::enums::code_status::CodeStatus;
use crate::enums::issue_status::IssueStatus;
use crate::enums::task_status::TaskStatus;

verus! {

/// `std::io::Error`, carried through by the library.
#[verifier::external_type_specification]
#[verifier::external_body]
pub struct ExIoError(std::io::Error);

/// `serde_json::Error`, carried through by the library.
#[verifier::external_type_specification]
#[verifier::external_body]
pub struct ExJsonError(serde_json::Error);

/// Comprehensive error type for the orchestrator
#[derive(Debug)]
#[allow(inconsistent_fields)]
pub enum OrchestratorError {
    /// IO errors (file operations, network, etc.)
    Io(std::io::Error),
    /// JSON serialization/deserialization errors
    Json(serde_json::Error),
    /// JSON parsing errors with context
    JsonParsing { context: String, source: serde_json::Error },
    /// Command execution errors
    CommandExecution { message: String },
    /// Process spawn errors
    ProcessSpawn { command: String },
    /// Agent status transition errors
    AgentTransition { from: AgentStatus, to: AgentStatus },
    /// Agent constraint violation errors
    AgentConstraint { message: String },
    /// Agent already in terminal state
    AgentTerminal { status: AgentStatus },
    /// Code status transition errors
    CodeTransition { from: CodeStatus, to: CodeStatus },
    /// Code status already terminal
    CodeTerminal { status: CodeStatus },
    /// Code status requires external action
    CodeExternalAction { message: String },
    /// Task status transition errors
    TaskTransition { from: TaskStatus, to: TaskStatus },
    /// Task status already terminal
    TaskTerminal { status: TaskStatus },
    /// Issue status transition errors
    IssueTransition { from: IssueStatus, to: IssueStatus },
    /// Issue status already terminal
    IssueTerminal { status: IssueStatus },
    /// Generic internal errors
    Internal { message: String },
    /// Configuration errors
    Configuration { message: String },
    /// Validation errors
    Validation { message: String },
    /// Not found errors
    NotFound { resource: String },
    /// Already exists errors
    AlreadyExists { resource: String },
    /// Permission denied errors
    PermissionDenied { operation: String },
    /// Timeout errors
    Timeout { operation: String },
    /// Network errors
    Network { message: String },
    /// Database errors
    Database { message: String },
    /// External service errors
    ExternalService { service: String, message: String },
}

impl OrchestratorError {
    /// Create an internal error
    pub fn internal(message: String) -> (e: Self)
        ensures
            e == (OrchestratorError::Internal { message }),
    {
        OrchestratorError::Internal { message }
    }

    /// Create a JSON parsing error with context
    pub fn json_parsing(context: String, source: serde_json::Error) -> (e: Self)
        ensures
            e == (OrchestratorError::JsonParsing { context, source }),
    {
        OrchestratorError::JsonParsing { context, source }
    }

    /// Create a command execution error
    pub fn command_execution(message: String) -> (e: Self)
        ensures
            e == (OrchestratorError::CommandExecution { message }),
    {
        OrchestratorError::CommandExecution { message }
    }

    /// Create a process spawn error
    pub fn process_spawn(command: String) -> (e: Self)
        ensures
            e == (OrchestratorError::ProcessSpawn { command }),
    {
        OrchestratorError::ProcessSpawn { command }
    }

    /// Create an agent transition error
    pub fn agent_transition(from: AgentStatus, to: AgentStatus) -> (e: Self)
        ensures
            e == (OrchestratorError::AgentTransition { from, to }),
    {
        OrchestratorError::AgentTransition { from, to }
    }

    /// Create an agent constraint violation error
    pub fn agent_constraint(message: String) -> (e: Self)
        ensures
            e == (OrchestratorError::AgentConstraint { message }),
    {
        OrchestratorError::AgentConstraint { message }
    }

    /// Create an agent terminal state error
    pub fn agent_terminal(status: AgentStatus) -> (e: Self)
        ensures
            e == (OrchestratorError::AgentTerminal { status }),
    {
        OrchestratorError::AgentTerminal { status }
    }

    /// Create a code transition error
    pub fn code_transition(from: CodeStatus, to: CodeStatus) -> (e: Self)
        ensures
            e == (OrchestratorError::CodeTransition { from, to }),
    {
        OrchestratorError::CodeTransition { from, to }
    }

    /// Create a code terminal state error
    pub fn code_terminal(status: CodeStatus) -> (e: Self)
        ensures
            e == (OrchestratorError::CodeTerminal { status }),
    {
        OrchestratorError::CodeTerminal { status }
    }

    /// Create a code external action error
    pub fn code_external_action(message: String) -> (e: Self)
        ensures
            e == (OrchestratorError::CodeExternalAction { message }),
    {
        OrchestratorError::CodeExternalAction { message }
    }

    /// Create a task transition error
    pub fn task_transition(from: TaskStatus, to: TaskStatus) -> (e: Self)
        ensures
            e == (OrchestratorError::TaskTransition { from, to }),
    {
        OrchestratorError::TaskTransition { from, to }
    }

    /// Create a task terminal state error
    pub fn task_terminal(status: TaskStatus) -> (e: Self)
        ensures
            e == (OrchestratorError::TaskTerminal { status }),
    {
        OrchestratorError::TaskTerminal { status }
    }

    /// Create an issue transition error
    pub fn issue_transition(from: IssueStatus, to: IssueStatus) -> (e: Self)
        ensures
            e == (OrchestratorError::IssueTransition { from, to }),
    {
        OrchestratorError::IssueTransition { from, to }
    }

    /// Create an issue terminal state error
    pub fn issue_terminal(status: IssueStatus) -> (e: Self)
        ensures
            e == (OrchestratorError::IssueTerminal { status }),
    {
        OrchestratorError::IssueTerminal { status }
    }

    /// Create a configuration error
    pub fn configuration(message: String) -> (e: Self)
        ensures
            e == (OrchestratorError::Configuration { message }),
    {
        OrchestratorError::Configuration { message }
    }

    /// Create a validation error
    pub fn validation(message: String) -> (e: Self)
        ensures
            e == (OrchestratorError::Validation { message }),
    {
        OrchestratorError::Validation { message }
    }

    /// Create a not found error
    pub fn not_found(resource: String) -> (e: Self)
        ensures
            e == (OrchestratorError::NotFound { resource }),
    {
        OrchestratorError::NotFound { resource }
    }

    /// Create an already exists error
    pub fn already_exists(resource: String) -> (e: Self)
        ensures
            e == (OrchestratorError::AlreadyExists { resource }),
    {
        OrchestratorError::AlreadyExists { resource }
    }

    /// Create a permission denied error
    pub fn permission_denied(operation: String) -> (e: Self)
        ensures
            e == (OrchestratorError::PermissionDenied { operation }),
    {
        OrchestratorError::PermissionDenied { operation }
    }

    /// Create a timeout error
    pub fn timeout(operation: String) -> (e: Self)
        ensures
            e == (OrchestratorError::Timeout { operation }),
    {
        OrchestratorError::Timeout { operation }
    }

    /// Create a network error
    pub fn network(message: String) -> (e: Self)
        ensures
            e == (OrchestratorError::Network { message }),
    {
        OrchestratorError::Network { message }
    }

    /// Create a database error
    pub fn database(message: String) -> (e: Self)
        ensures
            e == (OrchestratorError::Database { message }),
    {
        OrchestratorError::Database { message }
    }

    /// Create an external service error
    pub fn external_service(service: String, message: String) -> (e: Self)
        ensures
            e == (OrchestratorError::ExternalService { service, message }),
    {
        OrchestratorError::ExternalService { service, message }
    }
}

} // verus!
