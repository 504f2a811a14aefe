//! Scenarios of the database helpers.

use orchy::database::helpers::{DatabaseHelpers, UtcTimestamp};
use orchy::database::models::DbComment;
use orchy::error::OrchestratorError;

#[test]
fn uuids_are_read_by_their_bits() {
    let id = DatabaseHelpers::parse_uuid("67e55044-10b1-426f-9247-bb680e5fe0c8", "task").unwrap();
    assert_eq!(id, 0x67e55044_10b1_426f_9247_bb680e5fe0c8u128);
    match DatabaseHelpers::parse_uuid("not-a-uuid", "task") {
        Err(OrchestratorError::Validation { message }) => {
            assert!(message.starts_with("Invalid task UUID: "))
        }
        _ => panic!("expected a validation error"),
    }
}

#[test]
fn dates_are_read_as_utc_instants() {
    let t = DatabaseHelpers::parse_datetime("2024-01-02T03:04:05.5+01:00", "created_at").unwrap();
    assert_eq!(t, UtcTimestamp { seconds: 1704161045, nanos: 500_000_000 });
    match DatabaseHelpers::parse_datetime("yesterday", "created_at") {
        Err(OrchestratorError::Validation { message }) => {
            assert!(message.starts_with("Invalid created_at date: "))
        }
        _ => panic!("expected a validation error"),
    }
    assert_eq!(DatabaseHelpers::parse_optional_datetime(None, "closed_at").unwrap(), None);
    assert_eq!(
        DatabaseHelpers::parse_optional_datetime(Some("1970-01-01T00:00:00Z"), "closed_at").unwrap(),
        Some(UtcTimestamp { seconds: 0, nanos: 0 })
    );
    assert!(DatabaseHelpers::parse_optional_datetime(Some("bad"), "closed_at").is_err());
}

#[test]
fn statements_bind_one_value() {
    assert_eq!(
        DatabaseHelpers::delete_by_parent_statement("comments", "task_id"),
        "DELETE FROM comments WHERE task_id = ?1"
    );
    assert_eq!(
        DatabaseHelpers::count_rows_statement("projects", "id"),
        "SELECT COUNT(*) FROM projects WHERE id = ?1"
    );
}

#[test]
fn comments_hang_under_the_named_parent() {
    assert_eq!(DbComment::parent_columns("t1", "task"), (Some("t1".to_string()), None, None));
    assert_eq!(DbComment::parent_columns("i1", "issue"), (None, Some("i1".to_string()), None));
    assert_eq!(DbComment::parent_columns("p1", "pull_request"), (None, None, Some("p1".to_string())));
    assert_eq!(DbComment::parent_columns("x", "project"), (None, None, None));
}

use orchy::database::migrations::{index_statements, migration_step, user_version_statement, MigrationStep};
use orchy::database::schema::{all_tables, CREATE_PROJECTS_TABLE, CREATE_ISSUE_STATUS_HISTORY_TABLE};

#[test]
fn a_new_database_gets_the_initial_schema() {
    assert_eq!(migration_step(0).unwrap(), MigrationStep::CreateInitialSchema);
    assert_eq!(migration_step(1).unwrap(), MigrationStep::UpToDate);
    match migration_step(-3) {
        Err(OrchestratorError::Database { message }) => {
            assert_eq!(message, "Unknown database version: -3. Expected version <= 1")
        }
        _ => panic!("expected a database error"),
    }
    match migration_step(7) {
        Err(OrchestratorError::Database { message }) => assert_eq!(
            message,
            "Database version 7 is newer than supported version 1. Please update the application."
        ),
        _ => panic!("expected a database error"),
    }
}

#[test]
fn schema_statements() {
    assert_eq!(user_version_statement(5), "PRAGMA user_version = 5");
    let tables = all_tables();
    assert_eq!(tables.len(), 21);
    assert_eq!(tables[0], CREATE_PROJECTS_TABLE);
    assert_eq!(tables[20], CREATE_ISSUE_STATUS_HISTORY_TABLE);
    let indexes = index_statements();
    assert_eq!(indexes.len(), 45);
    assert_eq!(indexes[0], "CREATE INDEX IF NOT EXISTS idx_projects_status ON projects(status)");
    assert!(indexes.iter().all(|s| s.starts_with("CREATE INDEX IF NOT EXISTS ")));
}
