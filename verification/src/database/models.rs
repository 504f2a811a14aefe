//! The rows of the database tables, as the library reads and writes them.

use vstd::prelude::*;
use crate::text::opt_text;

verus! {

/// Database representation of a Project
#[derive(Debug, Clone)]
pub struct DbProject {
    pub id: String,
    pub idea: String,
    pub name: String,
    pub repository_url: Option<String>,
    pub project_path: String,
    pub status: String,
    pub tech_stack: String,
    pub created_at: String,
    pub updated_at: String,
}

/// Database representation of a Task
#[derive(Debug, Clone)]
pub struct DbTask {
    pub id: String,
    pub project_id: String,
    pub title: String,
    pub description: String,
    pub status: String,
    pub priority: String,
    pub estimated_complexity: Option<u8>,
    pub estimated_duration: Option<u32>,
    pub created_at: Option<String>,
    pub updated_at: Option<String>,
    pub completed_at: Option<String>,
    pub due_date: Option<String>,
    pub rapporter_id: Option<String>,
    pub assigned_to_id: Option<String>,
    pub pull_request_id: Option<String>,
}

/// Database representation of an Agent
#[derive(Debug, Clone)]
pub struct DbAgent {
    pub id: String,
    pub project_id: String,
    pub name: String,
    pub file_path: String,
    pub description: String,
    pub agent_type: String,
    pub status: String,
    pub created_at: String,
    pub updated_at: String,
    pub last_active_at: Option<String>,
    pub error_count: u32,
    pub total_tasks_completed: u64,
    pub recovery_attempts: u32,
    pub last_error_recovery_at: Option<String>,
    pub autonomous_recovery_enabled: bool,
    pub max_recovery_attempts: u32,
}

/// Database representation of an Issue
#[derive(Debug, Clone)]
pub struct DbIssue {
    pub id: String,
    pub project_id: String,
    pub task_id: String,
    pub github_issue_number: Option<u64>,
    pub title: String,
    pub body: String,
    pub assignee: Option<String>,
    pub branch_name: Option<String>,
    pub issue_type: Option<String>,
    pub status: String,
    pub created_at: String,
    pub updated_at: String,
    pub closed_at: Option<String>,
    pub reopened_count: u32,
    pub remotly_synced: bool,
}

/// Database representation of a Comment
#[derive(Debug, Clone)]
pub struct DbComment {
    pub id: String,
    pub content: String,
    pub author: String,
    pub comment_type: String,
    pub created_at: String,
    pub updated_at: String,
    pub remotly_synced: bool,
    pub task_id: Option<String>,
    pub issue_id: Option<String>,
    pub pull_request_id: Option<String>,
}

/// Database representation of a Pull Request
#[derive(Debug, Clone)]
pub struct DbPullRequest {
    pub id: String,
    pub github_pr_number: Option<u64>,
    pub title: String,
    pub description: String,
    pub source_branch: String,
    pub target_branch: String,
    pub author: String,
    pub code_status: String,
    pub ci_attemps: u32,
    pub created_at: String,
    pub updated_at: String,
    pub merged_at: Option<String>,
    pub closed_at: Option<String>,
    pub remotly_synced: bool,
}

/// Database representation of a Code Review
#[derive(Debug, Clone)]
pub struct DbCodeReview {
    pub id: String,
    pub pull_request_id: String,
    pub reviewer: String,
    pub approved: bool,
    pub created_at: String,
    pub updated_at: String,
}

/// Which parent column a comment's row fills, given its parent's kind.
pub open spec fn comment_parent_spec(parent_id: Seq<char>, parent_type: Seq<char>) -> (
    Option<Seq<char>>,
    Option<Seq<char>>,
    Option<Seq<char>>,
) {
    if parent_type == "task"@ {
        (Some(parent_id), None, None)
    } else if parent_type == "issue"@ {
        (None, Some(parent_id), None)
    } else if parent_type == "pull_request"@ {
        (None, None, Some(parent_id))
    } else {
        (None, None, None)
    }
}

impl DbComment {
    /// Chooses the parent columns of a comment's row (task, issue, pull
    /// request): the one named by `parent_type` holds `parent_id`; an unknown
    /// kind leaves all three empty.
    pub fn parent_columns(parent_id: &str, parent_type: &str) -> (r: (
        Option<String>,
        Option<String>,
        Option<String>,
    ))
        ensures
            (opt_text(r.0), opt_text(r.1), opt_text(r.2)) == comment_parent_spec(
                parent_id@,
                parent_type@,
            ),
    {
        if crate::text::str_eq(parent_type, "task") {
            (Some(parent_id.to_owned()), None, None)
        } else if crate::text::str_eq(parent_type, "issue") {
            (None, Some(parent_id.to_owned()), None)
        } else if crate::text::str_eq(parent_type, "pull_request") {
            (None, None, Some(parent_id.to_owned()))
        } else {
            (None, None, None)
        }
    }
}

} // verus!
