//! The destructive changes that block a migration: where one of them renders
//! a reason, the migration must not be applied.

use crate::database_check::{Check, DatabaseCheckResults, Fact, Snapshot};
use crate::text::{decimal, lemma_occurs_in_sentence, push_decimal};
use vstd::prelude::*;

verus! {

/// A change that cannot be carried out while the data it touches exists.
pub enum SqlUnexecutableMigration {
    /// The type of a column is narrowed, so that values it holds may not fit.
    ColumnNarrowing { table: String, column: String },
    /// A column is dropped that a constraint refers to, and the constraint
    /// cannot be replaced while the table holds rows.
    ConstrainedColumnDrop { table: String, column: String },
}

/// The reason against narrowing a column that holds `values` non-null values.
pub open spec fn column_narrowing_counted(table: Seq<char>, column: Seq<char>, values: int) -> Seq<
    char,
> {
    "The type of the column `"@ + column + "` on the `"@ + table
        + "` table is being narrowed, but the column still contains "@ + decimal(values)
        + " non-null values that may not fit. This migration cannot be executed."@
}

/// The reason against narrowing a column whose values could not be counted.
pub open spec fn column_narrowing_unverified(table: Seq<char>, column: Seq<char>) -> Seq<char> {
    "The type of the column `"@ + column + "` on the `"@ + table
        + "` table is being narrowed. If the column contains non-null values that do not fit, this migration cannot be executed."@
}

/// The reason against dropping a constrained column of a table that holds
/// `rows` rows.
pub open spec fn constrained_column_drop_counted(
    table: Seq<char>,
    column: Seq<char>,
    rows: int,
) -> Seq<char> {
    "The column `"@ + column + "` on the `"@ + table
        + "` table is referenced by a constraint that cannot be replaced, and the table is not empty ("@
        + decimal(rows) + " rows). This migration cannot be executed."@
}

/// The reason against dropping a constrained column of a table whose row count
/// is not known.
pub open spec fn constrained_column_drop_unverified(table: Seq<char>, column: Seq<char>) -> Seq<
    char,
> {
    "The column `"@ + column + "` on the `"@ + table
        + "` table is referenced by a constraint that cannot be replaced. If the table is not empty, this migration cannot be executed."@
}

impl Check for SqlUnexecutableMigration {
    open spec fn row_fact(&self) -> Fact {
        match self {
            SqlUnexecutableMigration::ConstrainedColumnDrop { table, .. } => Fact::TableNotEmpty {
                table: table@,
            },
            SqlUnexecutableMigration::ColumnNarrowing { .. } => Fact::NoCheck,
        }
    }

    open spec fn value_fact(&self) -> Fact {
        match self {
            SqlUnexecutableMigration::ColumnNarrowing { table, column } => Fact::ColumnHasValues {
                table: table@,
                column: column@,
            },
            SqlUnexecutableMigration::ConstrainedColumnDrop { .. } => Fact::NoCheck,
        }
    }

    open spec fn rendering(&self, snapshot: Snapshot) -> Option<Seq<char>> {
        match self {
            SqlUnexecutableMigration::ColumnNarrowing { table, column } => {
                match snapshot.non_null_values(table@, column@) {
                    Some(values) => if values == 0 {
                        None
                    } else {
                        Some(column_narrowing_counted(table@, column@, values as int))
                    },
                    None => Some(column_narrowing_unverified(table@, column@)),
                }
            },
            SqlUnexecutableMigration::ConstrainedColumnDrop { table, column } => {
                match snapshot.rows_in_table(table@) {
                    Some(rows) => if rows == 0 {
                        None
                    } else {
                        Some(constrained_column_drop_counted(table@, column@, rows as int))
                    },
                    None => Some(constrained_column_drop_unverified(table@, column@)),
                }
            },
        }
    }

    fn check_row_count(&self) -> (table: Option<&str>) {
        match self {
            SqlUnexecutableMigration::ConstrainedColumnDrop { table, .. } => Some(table.as_str()),
            SqlUnexecutableMigration::ColumnNarrowing { .. } => None,
        }
    }

    fn check_existing_values(&self) -> (column: Option<(&str, &str)>) {
        match self {
            SqlUnexecutableMigration::ColumnNarrowing { table, column } => Some(
                (table.as_str(), column.as_str()),
            ),
            SqlUnexecutableMigration::ConstrainedColumnDrop { .. } => None,
        }
    }

    fn render(&self, database_check_results: &DatabaseCheckResults) -> (message: Option<String>) {
        match self {
            SqlUnexecutableMigration::ColumnNarrowing { table, column } => {
                match database_check_results.values_in_column(table.as_str(), column.as_str()).1 {
                    // any type fits a column that holds no value
                    Some(0) => None,
                    Some(values_count) => {
                        let mut message = String::from_str("The type of the column `");
                        message.append(column.as_str());
                        message.append("` on the `");
                        message.append(table.as_str());
                        message.append(
                            "` table is being narrowed, but the column still contains ",
                        );
                        push_decimal(&mut message, values_count);
                        message.append(
                            " non-null values that may not fit. This migration cannot be executed.",
                        );
                        Some(message)
                    },
                    None => {
                        let mut message = String::from_str("The type of the column `");
                        message.append(column.as_str());
                        message.append("` on the `");
                        message.append(table.as_str());
                        message.append(
                            "` table is being narrowed. If the column contains non-null values that do not fit, this migration cannot be executed.",
                        );
                        Some(message)
                    },
                }
            },
            SqlUnexecutableMigration::ConstrainedColumnDrop { table, column } => {
                match database_check_results.rows_in_table(table.as_str()) {
                    // no row is bound by the constraint in an empty table
                    Some(0) => None,
                    Some(rows_count) => {
                        let mut message = String::from_str("The column `");
                        message.append(column.as_str());
                        message.append("` on the `");
                        message.append(table.as_str());
                        message.append(
                            "` table is referenced by a constraint that cannot be replaced, and the table is not empty (",
                        );
                        push_decimal(&mut message, rows_count);
                        message.append(" rows). This migration cannot be executed.");
                        Some(message)
                    },
                    None => {
                        let mut message = String::from_str("The column `");
                        message.append(column.as_str());
                        message.append("` on the `");
                        message.append(table.as_str());
                        message.append(
                            "` table is referenced by a constraint that cannot be replaced. If the table is not empty, this migration cannot be executed.",
                        );
                        Some(message)
                    },
                }
            },
        }
    }

    proof fn lemma_rendering_follows_facts(&self, snapshot: Snapshot) {
        // every message opens with words, so none is empty
        reveal_strlit("The type of the column `");
        reveal_strlit("The column `");

        // the table and the count stand between the words of the message
        match self {
            SqlUnexecutableMigration::ColumnNarrowing { table, column } => {
                lemma_occurs_in_sentence(
                    "The type of the column `"@ + column@ + "` on the `"@,
                    table@,
                    "` table is being narrowed, but the column still contains "@,
                    decimal(snapshot.non_null_values(table@, column@)->0 as int),
                    " non-null values that may not fit. This migration cannot be executed."@,
                );
            },
            SqlUnexecutableMigration::ConstrainedColumnDrop { table, column } => {
                lemma_occurs_in_sentence(
                    "The column `"@ + column@ + "` on the `"@,
                    table@,
                    "` table is referenced by a constraint that cannot be replaced, and the table is not empty ("@,
                    decimal(snapshot.rows_in_table(table@)->0 as int),
                    " rows). This migration cannot be executed."@,
                );
            },
        }
    }

    proof fn lemma_rendering_reads_only_facts(&self, first: Snapshot, second: Snapshot) {
    }
}

} // verus!
