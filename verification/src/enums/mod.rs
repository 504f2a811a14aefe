//! The library's enumerations: status machines, categories and the model of
//! responses and actions.

pub mod action;
pub mod action_steps;
pub mod agent_status;
pub mod agent_type;
pub mod code_status;
pub mod comment_type;
pub mod issue_status;
pub mod issue_type;
pub mod llm_response;
pub mod priority;
pub mod task_status;
pub mod tech_stack;

pub use agent_status::AgentStatus;
pub use agent_type::AgentType;
pub use code_status::CodeStatus;
pub use comment_type::CommentType;
pub use issue_status::IssueStatus;
pub use issue_type::IssueType;
pub use priority::Priority;
pub use task_status::TaskStatus;
pub use tech_stack::TechStack;
