//! The destructive changes that may go ahead once their risk is disclosed.

use crate::database_check::{Check, DatabaseCheckResults, Fact, Snapshot};
use crate::text::{decimal, lemma_occurs_in_sentence, push_decimal};
use vstd::prelude::*;

verus! {

/// A change that can destroy data but may proceed: the operator is warned.
pub enum SqlMigrationWarning {
    /// A column is dropped.
    NonEmptyColumnDrop { table: String, column: String },
    /// A table is dropped.
    NonEmptyTableDrop { table: String },
    /// A column is altered in a way that loses the values it holds.
    AlterColumn { table: String, column: String },
    /// The default value of a foreign key column is removed.
    ForeignKeyDefaultValueRemoved { table: String, column: String },
}

/// The warning for a dropped table that holds `rows` rows.
pub open spec fn table_drop_counted(table: Seq<char>, rows: int) -> Seq<char> {
    "You are about to drop the table `"@ + table + "`, which is not empty ("@ + decimal(rows)
        + " rows)."@
}

/// The warning for a dropped table whose row count is not known.
pub open spec fn table_drop_unverified(table: Seq<char>) -> Seq<char> {
    "You are about to drop the `"@ + table
        + "` table. If the table is not empty, all the data it contains will be lost."@
}

/// The warning for a dropped column that holds `values` non-null values.
pub open spec fn column_drop_counted(table: Seq<char>, column: Seq<char>, values: int) -> Seq<
    char,
> {
    "You are about to drop the column `"@ + column + "` on the `"@ + table
        + "` table, which still contains "@ + decimal(values) + " non-null values."@
}

/// The warning for a dropped column whose values could not be counted.
pub open spec fn column_drop_unverified(table: Seq<char>, column: Seq<char>) -> Seq<char> {
    "You are about to drop the column `"@ + column + "` on the `"@ + table
        + "` table. If the column contains values, all the data in the column will be lost."@
}

/// The warning for an altered column that holds `values` non-null values.
pub open spec fn column_alter_counted(table: Seq<char>, column: Seq<char>, values: int) -> Seq<
    char,
> {
    "You are about to alter the column `"@ + column + "` on the `"@ + table
        + "` table, which still contains "@ + decimal(values)
        + " non-null values. The data in that column will be lost."@
}

/// The warning for an altered column whose values could not be counted.
pub open spec fn column_alter_unverified(table: Seq<char>, column: Seq<char>) -> Seq<char> {
    "You are about to alter the column `"@ + column + "` on the `"@ + table
        + "` table. If the column contains non-null values, the data in that column will be lost."@
}

/// The warning for a default value removed from a foreign key column.
pub open spec fn foreign_key_default_removed(table: Seq<char>, column: Seq<char>) -> Seq<char> {
    "The migration is about to remove a default value on the foreign key field `"@ + table + "."@
        + column + "`."@
}

impl Check for SqlMigrationWarning {
    open spec fn row_fact(&self) -> Fact {
        match self {
            SqlMigrationWarning::NonEmptyTableDrop { table } => Fact::TableNotEmpty {
                table: table@,
            },
            _ => Fact::NoCheck,
        }
    }

    open spec fn value_fact(&self) -> Fact {
        match self {
            SqlMigrationWarning::NonEmptyColumnDrop { table, column } => Fact::ColumnHasValues {
                table: table@,
                column: column@,
            },
            SqlMigrationWarning::AlterColumn { table, column } => Fact::ColumnHasValues {
                table: table@,
                column: column@,
            },
            _ => Fact::NoCheck,
        }
    }

    open spec fn rendering(&self, snapshot: Snapshot) -> Option<Seq<char>> {
        match self {
            SqlMigrationWarning::NonEmptyTableDrop { table } => match snapshot.rows_in_table(
                table@,
            ) {
                Some(rows) => if rows == 0 {
                    None
                } else {
                    Some(table_drop_counted(table@, rows as int))
                },
                None => Some(table_drop_unverified(table@)),
            },
            SqlMigrationWarning::NonEmptyColumnDrop { table, column } => {
                match snapshot.non_null_values(table@, column@) {
                    Some(values) => if values == 0 {
                        None
                    } else {
                        Some(column_drop_counted(table@, column@, values as int))
                    },
                    None => Some(column_drop_unverified(table@, column@)),
                }
            },
            SqlMigrationWarning::AlterColumn { table, column } => {
                match snapshot.non_null_values(table@, column@) {
                    Some(values) => if values == 0 {
                        None
                    } else {
                        Some(column_alter_counted(table@, column@, values as int))
                    },
                    None => Some(column_alter_unverified(table@, column@)),
                }
            },
            SqlMigrationWarning::ForeignKeyDefaultValueRemoved { table, column } => Some(
                foreign_key_default_removed(table@, column@),
            ),
        }
    }

    fn check_row_count(&self) -> (table: Option<&str>) {
        match self {
            SqlMigrationWarning::NonEmptyTableDrop { table } => Some(table.as_str()),
            SqlMigrationWarning::NonEmptyColumnDrop { .. }
            | SqlMigrationWarning::AlterColumn { .. }
            | SqlMigrationWarning::ForeignKeyDefaultValueRemoved { .. } => None,
        }
    }

    fn check_existing_values(&self) -> (column: Option<(&str, &str)>) {
        match self {
            SqlMigrationWarning::NonEmptyColumnDrop { table, column }
            | SqlMigrationWarning::AlterColumn { table, column } => Some(
                (table.as_str(), column.as_str()),
            ),
            SqlMigrationWarning::ForeignKeyDefaultValueRemoved { .. }
            | SqlMigrationWarning::NonEmptyTableDrop { .. } => None,
        }
    }

    fn render(&self, database_check_results: &DatabaseCheckResults) -> (message: Option<String>) {
        match self {
            SqlMigrationWarning::NonEmptyTableDrop { table } => {
                match database_check_results.rows_in_table(table.as_str()) {
                    // dropping the table is safe if it's empty
                    Some(0) => None,
                    Some(rows_count) => {
                        let mut message = String::from_str("You are about to drop the table `");
                        message.append(table.as_str());
                        message.append("`, which is not empty (");
                        push_decimal(&mut message, rows_count);
                        message.append(" rows).");
                        Some(message)
                    },
                    None => {
                        let mut message = String::from_str("You are about to drop the `");
                        message.append(table.as_str());
                        message.append(
                            "` table. If the table is not empty, all the data it contains will be lost.",
                        );
                        Some(message)
                    },
                }
            },
            SqlMigrationWarning::NonEmptyColumnDrop { table, column } => {
                match database_check_results.values_in_column(table.as_str(), column.as_str()).1 {
                    // dropping the column is safe if it holds no value
                    Some(0) => None,
                    Some(values_count) => {
                        let mut message = String::from_str("You are about to drop the column `");
                        message.append(column.as_str());
                        message.append("` on the `");
                        message.append(table.as_str());
                        message.append("` table, which still contains ");
                        push_decimal(&mut message, values_count);
                        message.append(" non-null values.");
                        Some(message)
                    },
                    None => {
                        let mut message = String::from_str("You are about to drop the column `");
                        message.append(column.as_str());
                        message.append("` on the `");
                        message.append(table.as_str());
                        message.append(
                            "` table. If the column contains values, all the data in the column will be lost.",
                        );
                        Some(message)
                    },
                }
            },
            SqlMigrationWarning::AlterColumn { table, column } => {
                match database_check_results.values_in_column(table.as_str(), column.as_str()).1 {
                    // altering the column is safe if it holds no value
                    Some(0) => None,
                    Some(values_count) => {
                        let mut message = String::from_str("You are about to alter the column `");
                        message.append(column.as_str());
                        message.append("` on the `");
                        message.append(table.as_str());
                        message.append("` table, which still contains ");
                        push_decimal(&mut message, values_count);
                        message.append(" non-null values. The data in that column will be lost.");
                        Some(message)
                    },
                    None => {
                        let mut message = String::from_str("You are about to alter the column `");
                        message.append(column.as_str());
                        message.append("` on the `");
                        message.append(table.as_str());
                        message.append(
                            "` table. If the column contains non-null values, the data in that column will be lost.",
                        );
                        Some(message)
                    },
                }
            },
            SqlMigrationWarning::ForeignKeyDefaultValueRemoved { table, column } => {
                let mut message = String::from_str(
                    "The migration is about to remove a default value on the foreign key field `",
                );
                message.append(table.as_str());
                message.append(".");
                message.append(column.as_str());
                message.append("`.");
                Some(message)
            },
        }
    }

    proof fn lemma_rendering_follows_facts(&self, snapshot: Snapshot) {
        // every message opens with words, so none is empty
        reveal_strlit("You are about to drop the table `");
        reveal_strlit("You are about to drop the `");
        reveal_strlit("You are about to drop the column `");
        reveal_strlit("You are about to alter the column `");
        reveal_strlit(
            "The migration is about to remove a default value on the foreign key field `",
        );

        // the table and the count stand between the words of the message
        match self {
            SqlMigrationWarning::NonEmptyTableDrop { table } => {
                lemma_occurs_in_sentence(
                    "You are about to drop the table `"@,
                    table@,
                    "`, which is not empty ("@,
                    decimal(snapshot.rows_in_table(table@)->0 as int),
                    " rows)."@,
                );
            },
            SqlMigrationWarning::NonEmptyColumnDrop { table, column } => {
                lemma_occurs_in_sentence(
                    "You are about to drop the column `"@ + column@ + "` on the `"@,
                    table@,
                    "` table, which still contains "@,
                    decimal(snapshot.non_null_values(table@, column@)->0 as int),
                    " non-null values."@,
                );
            },
            SqlMigrationWarning::AlterColumn { table, column } => {
                lemma_occurs_in_sentence(
                    "You are about to alter the column `"@ + column@ + "` on the `"@,
                    table@,
                    "` table, which still contains "@,
                    decimal(snapshot.non_null_values(table@, column@)->0 as int),
                    " non-null values. The data in that column will be lost."@,
                );
            },
            SqlMigrationWarning::ForeignKeyDefaultValueRemoved { .. } => {},
        }
    }

    proof fn lemma_rendering_reads_only_facts(&self, first: Snapshot, second: Snapshot) {
    }
}

} // verus!
