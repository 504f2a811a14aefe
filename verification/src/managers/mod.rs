//! The managers' shared patterns and the decisions of the model-calling and
//! project managers.

pub mod common;
pub mod mcp_manager;
pub mod project_files;
pub mod project_manager;
