//! The database layer's own logic: the schema and how a stored version is
//! migrated, the row models the tables are read into, and the helpers that
//! read identifiers and dates and build statements.

pub mod helpers;
pub mod migrations;
pub mod models;
pub mod schema;
