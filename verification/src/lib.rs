//! Gating of destructive schema changes.
//!
//! A migration that drops a table, drops or alters a column, or removes a
//! default may destroy data. Before it is applied, each such change is
//! registered with a [`destructive_check_plan::DestructiveCheckPlan`], as a
//! warning or as a reason against the migration. The plan lists the distinct
//! facts that its changes need from the live database: row counts of tables
//! and counts of non-null values in columns. Whoever holds the connection
//! asks the database once for each and files the answers in a
//! [`database_check::DatabaseCheckResults`]; a question that fails leaves its
//! fact unknown. The plan then renders every change against the results.
//!
//! A change is silent only where the results show that it is safe. Where a
//! count is known it is stated with the table it belongs to, and where it is
//! not known the message says under which condition data is lost. Nothing
//! here reads the database or changes it.

pub mod database_check;
pub mod destructive_check_plan;
pub mod log_format;
pub mod sql_migration_warning;
pub mod sql_unexecutable_migration;
pub mod text;
