//! Helpers of the database layer: reading identifiers and dates out of their
//! text, and building the statements that delete and count rows.

use vstd::prelude::*;
use crate::error::OrchestratorError;

verus! {

/// Database operation helper functions to reduce code duplication
pub struct DatabaseHelpers;

/// An instant in UTC: whole seconds since the epoch and the nanoseconds past
/// them.
#[derive(Debug, Clone, Copy, PartialEq, Eq, Structural)]
pub struct UtcTimestamp {
    pub seconds: i64,
    pub nanos: u32,
}

/// What `Uuid::parse_str` gives for `text`: the identifier's 128 bits, or the
/// text of the error it reports.
pub uninterp spec fn uuid_parse(text: Seq<char>) -> Result<u128, Seq<char>>;

/// `uuid::Uuid::parse_str`, the identifier taken by its bits and the error by
/// its message; the outcome depends on the text alone.
#[verifier::external_body]
fn parse_uuid_text(text: &str) -> (r: Result<u128, String>)
    ensures
        match (r, uuid_parse(text@)) {
            (Ok(v), Ok(w)) => v == w,
            (Err(e), Err(x)) => e@ == x,
            _ => false,
        },
{
    match uuid::Uuid::parse_str(text) {
        Ok(u) => Ok(u.as_u128()),
        Err(e) => Err(e.to_string()),
    }
}

/// What `DateTime::parse_from_rfc3339` gives for `text`, moved to UTC: the
/// instant as seconds and nanoseconds, or the text of the error it reports.
pub uninterp spec fn rfc3339_parse(text: Seq<char>) -> Result<(i64, u32), Seq<char>>;

/// `chrono::DateTime::parse_from_rfc3339` followed by `with_timezone(&Utc)`,
/// the instant taken by its timestamp and the error by its message; the
/// outcome depends on the text alone.
#[verifier::external_body]
fn parse_rfc3339_text(text: &str) -> (r: Result<(i64, u32), String>)
    ensures
        match (r, rfc3339_parse(text@)) {
            (Ok(v), Ok(w)) => v == w,
            (Err(e), Err(x)) => e@ == x,
            _ => false,
        },
{
    match chrono::DateTime::parse_from_rfc3339(text) {
        Ok(dt) => {
            let utc = dt.with_timezone(&chrono::Utc);
            Ok((utc.timestamp(), utc.timestamp_subsec_nanos()))
        },
        Err(e) => Err(e.to_string()),
    }
}

/// The message of a refused identifier.
pub open spec fn invalid_uuid_message(context: Seq<char>, error: Seq<char>) -> Seq<char> {
    "Invalid "@ + context + " UUID: "@ + error
}

/// The message of a refused date.
pub open spec fn invalid_date_message(context: Seq<char>, error: Seq<char>) -> Seq<char> {
    "Invalid "@ + context + " date: "@ + error
}

/// The statement that deletes the rows of `table` whose `parent_column` holds
/// the bound parent.
pub open spec fn delete_by_parent_sql(table: Seq<char>, parent_column: Seq<char>) -> Seq<char> {
    "DELETE FROM "@ + table + " WHERE "@ + parent_column + " = ?1"@
}

/// The statement that counts the rows of `table` whose `column` holds the
/// bound value.
pub open spec fn count_rows_sql(table: Seq<char>, column: Seq<char>) -> Seq<char> {
    "SELECT COUNT(*) FROM "@ + table + " WHERE "@ + column + " = ?1"@
}

fn where_bound(head: &str, table: &str, column: &str) -> (r: String)
    ensures
        r@ == head@ + table@ + " WHERE "@ + column@ + " = ?1"@,
{
    let mut r = head.to_owned();
    r.append(table);
    r.append(" WHERE ");
    r.append(column);
    r.append(" = ?1");
    r
}

impl DatabaseHelpers {
    /// Parse UUID from string with proper error handling
    pub fn parse_uuid(uuid_str: &str, context: &str) -> (r: Result<u128, OrchestratorError>)
        ensures
            match uuid_parse(uuid_str@) {
                Ok(v) => r == Ok::<u128, OrchestratorError>(v),
                Err(e) => r matches Err(OrchestratorError::Validation { message })
                    && message@ == invalid_uuid_message(context@, e),
            },
    {
        match parse_uuid_text(uuid_str) {
            Ok(v) => Ok(v),
            Err(e) => {
                let mut m = "Invalid ".to_owned();
                m.append(context);
                m.append(" UUID: ");
                m.append(e.as_str());
                Err(OrchestratorError::validation(m))
            },
        }
    }

    /// Parse DateTime from RFC3339 string with proper error handling
    pub fn parse_datetime(date_str: &str, context: &str) -> (r: Result<UtcTimestamp, OrchestratorError>)
        ensures
            match rfc3339_parse(date_str@) {
                Ok((s, n)) => r == Ok::<UtcTimestamp, OrchestratorError>(
                    UtcTimestamp { seconds: s, nanos: n },
                ),
                Err(e) => r matches Err(OrchestratorError::Validation { message })
                    && message@ == invalid_date_message(context@, e),
            },
    {
        match parse_rfc3339_text(date_str) {
            Ok((s, n)) => Ok(UtcTimestamp { seconds: s, nanos: n }),
            Err(e) => {
                let mut m = "Invalid ".to_owned();
                m.append(context);
                m.append(" date: ");
                m.append(e.as_str());
                Err(OrchestratorError::validation(m))
            },
        }
    }

    /// Parse optional DateTime from RFC3339 string
    pub fn parse_optional_datetime(date_str: Option<&str>, context: &str) -> (r: Result<
        Option<UtcTimestamp>,
        OrchestratorError,
    >)
        ensures
            match date_str {
                None => r == Ok::<Option<UtcTimestamp>, OrchestratorError>(None),
                Some(d) => match rfc3339_parse(d@) {
                    Ok((s, n)) => r == Ok::<Option<UtcTimestamp>, OrchestratorError>(
                        Some(UtcTimestamp { seconds: s, nanos: n }),
                    ),
                    Err(e) => r matches Err(OrchestratorError::Validation { message })
                        && message@ == invalid_date_message(context@, e),
                },
            },
    {
        match date_str {
            Some(s) => match Self::parse_datetime(s, context) {
                Ok(t) => Ok(Some(t)),
                Err(e) => Err(e),
            },
            None => Ok(None),
        }
    }

    /// The statement with which `delete_by_parent_id` deletes the rows of
    /// `table` under one parent.
    pub fn delete_by_parent_statement(table: &str, parent_column: &str) -> (r: String)
        ensures
            r@ == delete_by_parent_sql(table@, parent_column@),
    {
        where_bound("DELETE FROM ", table, parent_column)
    }

    /// The statement with which `exists` counts the rows of `table` whose
    /// `column` holds a value.
    pub fn count_rows_statement(table: &str, column: &str) -> (r: String)
        ensures
            r@ == count_rows_sql(table@, column@),
    {
        where_bound("SELECT COUNT(*) FROM ", table, column)
    }
}

/// Trait for database entities to reduce boilerplate
pub trait DatabaseEntity {
    type DbModel;

    /// Convert from domain model to database model
    fn to_db_model(&self) -> Self::DbModel;

    /// Convert from database model to domain model
    fn from_db_model(db_model: Self::DbModel) -> Result<Self, OrchestratorError> where Self: Sized;
}

} // verus!
