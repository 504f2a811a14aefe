//! Bringing a database to the current schema version: which step a stored
//! version calls for, and the statements of each step.

use vstd::prelude::*;
use crate::text::str_views;
use crate::error::OrchestratorError;
use crate::text_fmt::{int_dec, push_int_dec};

verus! {

/// Current database schema version
pub const CURRENT_VERSION: i32 = 1;

/// What migrating a database of a given version does.
#[derive(Debug, Clone, Copy, PartialEq, Eq, Structural)]
pub enum MigrationStep {
    /// The database is at the current version.
    UpToDate,
    /// The database is new: create the tables and indexes, then record the
    /// current version.
    CreateInitialSchema,
}

/// The step a database at `version` calls for, or the message with which it
/// is refused.
pub open spec fn migration_step_spec(version: int) -> Result<MigrationStep, Seq<char>> {
    if version < CURRENT_VERSION {
        if version == 0 {
            Ok(MigrationStep::CreateInitialSchema)
        } else {
            Err("Unknown database version: "@ + int_dec(version) + ". Expected version <= 1"@)
        }
    } else if version > CURRENT_VERSION {
        Err("Database version "@ + int_dec(version)
            + " is newer than supported version 1. Please update the application."@)
    } else {
        Ok(MigrationStep::UpToDate)
    }
}

/// Decides how a database stored at `current_version` is brought to the
/// current version: a new database gets the initial schema, a current one is
/// left alone, and any other version is refused.
pub fn migration_step(current_version: i32) -> (r: Result<MigrationStep, OrchestratorError>)
    ensures
        match migration_step_spec(current_version as int) {
            Ok(s) => r == Ok::<MigrationStep, OrchestratorError>(s),
            Err(m) => r matches Err(OrchestratorError::Database { message }) && message@ == m,
        },
{
    if current_version < CURRENT_VERSION {
        if current_version == 0 {
            Ok(MigrationStep::CreateInitialSchema)
        } else {
            let mut m = "Unknown database version: ".to_owned();
            push_int_dec(&mut m, current_version as i64);
            m.append(". Expected version <= 1");
            Err(OrchestratorError::database(m))
        }
    } else if current_version > CURRENT_VERSION {
        let mut m = "Database version ".to_owned();
        push_int_dec(&mut m, current_version as i64);
        m.append(" is newer than supported version 1. Please update the application.");
        Err(OrchestratorError::database(m))
    } else {
        Ok(MigrationStep::UpToDate)
    }
}

/// The statement that records the schema version.
pub fn user_version_statement(version: i32) -> (r: String)
    ensures
        r@ == "PRAGMA user_version = "@ + int_dec(version as int),
{
    let mut r = "PRAGMA user_version = ".to_owned();
    push_int_dec(&mut r, version as i64);
    r
}

/// The indexes of the initial schema.
pub open spec fn index_statements_spec() -> Seq<Seq<char>> {
    seq![
        "CREATE INDEX IF NOT EXISTS idx_projects_status ON projects(status)"@,
        "CREATE INDEX IF NOT EXISTS idx_projects_tech_stack ON projects(tech_stack)"@,
        "CREATE INDEX IF NOT EXISTS idx_projects_created_at ON projects(created_at)"@,
        "CREATE INDEX IF NOT EXISTS idx_tasks_project_id ON tasks(project_id)"@,
        "CREATE INDEX IF NOT EXISTS idx_tasks_status ON tasks(status)"@,
        "CREATE INDEX IF NOT EXISTS idx_tasks_priority ON tasks(priority)"@,
        "CREATE INDEX IF NOT EXISTS idx_tasks_assigned_to ON tasks(assigned_to_id)"@,
        "CREATE INDEX IF NOT EXISTS idx_tasks_created_at ON tasks(created_at)"@,
        "CREATE INDEX IF NOT EXISTS idx_tasks_due_date ON tasks(due_date)"@,
        "CREATE INDEX IF NOT EXISTS idx_agents_project_id ON agents(project_id)"@,
        "CREATE INDEX IF NOT EXISTS idx_agents_status ON agents(status)"@,
        "CREATE INDEX IF NOT EXISTS idx_agents_type ON agents(agent_type)"@,
        "CREATE INDEX IF NOT EXISTS idx_agents_last_active ON agents(last_active_at)"@,
        "CREATE INDEX IF NOT EXISTS idx_issues_project_id ON issues(project_id)"@,
        "CREATE INDEX IF NOT EXISTS idx_issues_task_id ON issues(task_id)"@,
        "CREATE INDEX IF NOT EXISTS idx_issues_status ON issues(status)"@,
        "CREATE INDEX IF NOT EXISTS idx_issues_github_number ON issues(github_issue_number)"@,
        "CREATE INDEX IF NOT EXISTS idx_issues_synced ON issues(remotly_synced)"@,
        "CREATE INDEX IF NOT EXISTS idx_pull_requests_status ON pull_requests(code_status)"@,
        "CREATE INDEX IF NOT EXISTS idx_pull_requests_author ON pull_requests(author)"@,
        "CREATE INDEX IF NOT EXISTS idx_pull_requests_github_number ON pull_requests(github_pr_number)"@,
        "CREATE INDEX IF NOT EXISTS idx_pull_requests_synced ON pull_requests(remotly_synced)"@,
        "CREATE INDEX IF NOT EXISTS idx_comments_task_id ON comments(task_id)"@,
        "CREATE INDEX IF NOT EXISTS idx_comments_issue_id ON comments(issue_id)"@,
        "CREATE INDEX IF NOT EXISTS idx_comments_pull_request_id ON comments(pull_request_id)"@,
        "CREATE INDEX IF NOT EXISTS idx_comments_type ON comments(comment_type)"@,
        "CREATE INDEX IF NOT EXISTS idx_comments_author ON comments(author)"@,
        "CREATE INDEX IF NOT EXISTS idx_comments_synced ON comments(remotly_synced)"@,
        "CREATE INDEX IF NOT EXISTS idx_task_status_history_task_id ON task_status_history(task_id)"@,
        "CREATE INDEX IF NOT EXISTS idx_task_status_history_timestamp ON task_status_history(timestamp)"@,
        "CREATE INDEX IF NOT EXISTS idx_agent_status_history_agent_id ON agent_status_history(agent_id)"@,
        "CREATE INDEX IF NOT EXISTS idx_agent_status_history_timestamp ON agent_status_history(timestamp)"@,
        "CREATE INDEX IF NOT EXISTS idx_agent_errors_agent_id ON agent_errors(agent_id)"@,
        "CREATE INDEX IF NOT EXISTS idx_agent_errors_resolved ON agent_errors(resolved)"@,
        "CREATE INDEX IF NOT EXISTS idx_tasks_history_project_id ON tasks_history(project_id)"@,
        "CREATE INDEX IF NOT EXISTS idx_tasks_history_timestamp ON tasks_history(timestamp)"@,
        "CREATE INDEX IF NOT EXISTS idx_code_reviews_pull_request_id ON code_reviews(pull_request_id)"@,
        "CREATE INDEX IF NOT EXISTS idx_code_reviews_reviewed_by ON code_reviews(reviewed_by)"@,
        "CREATE INDEX IF NOT EXISTS idx_code_reviews_approved ON code_reviews(approved)"@,
        "CREATE INDEX IF NOT EXISTS idx_task_tags_task_id ON task_tags(task_id)"@,
        "CREATE INDEX IF NOT EXISTS idx_task_tags_tag ON task_tags(tag)"@,
        "CREATE INDEX IF NOT EXISTS idx_task_dependencies_task_id ON task_dependencies(task_id)"@,
        "CREATE INDEX IF NOT EXISTS idx_task_dependencies_depends_on ON task_dependencies(depends_on_task_id)"@,
        "CREATE INDEX IF NOT EXISTS idx_issue_labels_issue_id ON issue_labels(issue_id)"@,
        "CREATE INDEX IF NOT EXISTS idx_issue_labels_label ON issue_labels(label)"@,
    ]
}

/// The statements that create the indexes of the initial schema.
pub fn index_statements() -> (r: Vec<&'static str>)
    ensures
        str_views(r@) == index_statements_spec(),
{
    let v = vec![
        "CREATE INDEX IF NOT EXISTS idx_projects_status ON projects(status)",
        "CREATE INDEX IF NOT EXISTS idx_projects_tech_stack ON projects(tech_stack)",
        "CREATE INDEX IF NOT EXISTS idx_projects_created_at ON projects(created_at)",
        "CREATE INDEX IF NOT EXISTS idx_tasks_project_id ON tasks(project_id)",
        "CREATE INDEX IF NOT EXISTS idx_tasks_status ON tasks(status)",
        "CREATE INDEX IF NOT EXISTS idx_tasks_priority ON tasks(priority)",
        "CREATE INDEX IF NOT EXISTS idx_tasks_assigned_to ON tasks(assigned_to_id)",
        "CREATE INDEX IF NOT EXISTS idx_tasks_created_at ON tasks(created_at)",
        "CREATE INDEX IF NOT EXISTS idx_tasks_due_date ON tasks(due_date)",
        "CREATE INDEX IF NOT EXISTS idx_agents_project_id ON agents(project_id)",
        "CREATE INDEX IF NOT EXISTS idx_agents_status ON agents(status)",
        "CREATE INDEX IF NOT EXISTS idx_agents_type ON agents(agent_type)",
        "CREATE INDEX IF NOT EXISTS idx_agents_last_active ON agents(last_active_at)",
        "CREATE INDEX IF NOT EXISTS idx_issues_project_id ON issues(project_id)",
        "CREATE INDEX IF NOT EXISTS idx_issues_task_id ON issues(task_id)",
        "CREATE INDEX IF NOT EXISTS idx_issues_status ON issues(status)",
        "CREATE INDEX IF NOT EXISTS idx_issues_github_number ON issues(github_issue_number)",
        "CREATE INDEX IF NOT EXISTS idx_issues_synced ON issues(remotly_synced)",
        "CREATE INDEX IF NOT EXISTS idx_pull_requests_status ON pull_requests(code_status)",
        "CREATE INDEX IF NOT EXISTS idx_pull_requests_author ON pull_requests(author)",
        "CREATE INDEX IF NOT EXISTS idx_pull_requests_github_number ON pull_requests(github_pr_number)",
        "CREATE INDEX IF NOT EXISTS idx_pull_requests_synced ON pull_requests(remotly_synced)",
        "CREATE INDEX IF NOT EXISTS idx_comments_task_id ON comments(task_id)",
        "CREATE INDEX IF NOT EXISTS idx_comments_issue_id ON comments(issue_id)",
        "CREATE INDEX IF NOT EXISTS idx_comments_pull_request_id ON comments(pull_request_id)",
        "CREATE INDEX IF NOT EXISTS idx_comments_type ON comments(comment_type)",
        "CREATE INDEX IF NOT EXISTS idx_comments_author ON comments(author)",
        "CREATE INDEX IF NOT EXISTS idx_comments_synced ON comments(remotly_synced)",
        "CREATE INDEX IF NOT EXISTS idx_task_status_history_task_id ON task_status_history(task_id)",
        "CREATE INDEX IF NOT EXISTS idx_task_status_history_timestamp ON task_status_history(timestamp)",
        "CREATE INDEX IF NOT EXISTS idx_agent_status_history_agent_id ON agent_status_history(agent_id)",
        "CREATE INDEX IF NOT EXISTS idx_agent_status_history_timestamp ON agent_status_history(timestamp)",
        "CREATE INDEX IF NOT EXISTS idx_agent_errors_agent_id ON agent_errors(agent_id)",
        "CREATE INDEX IF NOT EXISTS idx_agent_errors_resolved ON agent_errors(resolved)",
        "CREATE INDEX IF NOT EXISTS idx_tasks_history_project_id ON tasks_history(project_id)",
        "CREATE INDEX IF NOT EXISTS idx_tasks_history_timestamp ON tasks_history(timestamp)",
        "CREATE INDEX IF NOT EXISTS idx_code_reviews_pull_request_id ON code_reviews(pull_request_id)",
        "CREATE INDEX IF NOT EXISTS idx_code_reviews_reviewed_by ON code_reviews(reviewed_by)",
        "CREATE INDEX IF NOT EXISTS idx_code_reviews_approved ON code_reviews(approved)",
        "CREATE INDEX IF NOT EXISTS idx_task_tags_task_id ON task_tags(task_id)",
        "CREATE INDEX IF NOT EXISTS idx_task_tags_tag ON task_tags(tag)",
        "CREATE INDEX IF NOT EXISTS idx_task_dependencies_task_id ON task_dependencies(task_id)",
        "CREATE INDEX IF NOT EXISTS idx_task_dependencies_depends_on ON task_dependencies(depends_on_task_id)",
        "CREATE INDEX IF NOT EXISTS idx_issue_labels_issue_id ON issue_labels(issue_id)",
        "CREATE INDEX IF NOT EXISTS idx_issue_labels_label ON issue_labels(label)",
    ];
    assert(str_views(v@) =~= index_statements_spec());
    v
}

} // verus!
