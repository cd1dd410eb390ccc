use destructive_changes_checker::database_check::{Check, DatabaseCheckResults};
use destructive_changes_checker::destructive_check_plan::DestructiveCheckPlan;
use destructive_changes_checker::sql_migration_warning::SqlMigrationWarning;
use destructive_changes_checker::sql_unexecutable_migration::SqlUnexecutableMigration;

fn drop_users() -> SqlMigrationWarning {
    SqlMigrationWarning::NonEmptyTableDrop { table: "users".to_string() }
}

#[test]
fn dropping_an_empty_table_gives_no_warning() {
    let mut results = DatabaseCheckResults::new();
    results.set_row_count("users", 0);
    assert_eq!(drop_users().render(&results), None);

    let mut plan = DestructiveCheckPlan::new();
    plan.push_warning(drop_users());
    let diagnostics = plan.execute(&results);
    assert!(diagnostics.warnings.is_empty());
    assert!(diagnostics.unexecutable_migrations.is_empty());
}

#[test]
fn dropping_a_table_with_rows_states_the_table_and_the_count() {
    let mut results = DatabaseCheckResults::new();
    results.set_row_count("users", 42);
    let message = drop_users().render(&results).unwrap();
    assert!(message.contains("users"));
    assert!(message.contains("42"));
    assert_eq!(message, "You are about to drop the table `users`, which is not empty (42 rows).");
}

#[test]
fn dropping_a_column_without_a_count_warns_of_possible_data_loss() {
    let results = DatabaseCheckResults::new();
    let warning = SqlMigrationWarning::NonEmptyColumnDrop {
        table: "users".to_string(),
        column: "bio".to_string(),
    };
    let message = warning.render(&results).unwrap();
    assert_eq!(
        message,
        "You are about to drop the column `bio` on the `users` table. If the column contains values, all the data in the column will be lost."
    );
    assert!(message.contains("lost"));
    assert!(message.contains("users"));
    assert!(message.contains("bio"));
    assert!(!message.chars().any(|c| c.is_ascii_digit()));
}

#[test]
fn a_count_for_another_column_leaves_the_column_unverified() {
    let mut results = DatabaseCheckResults::new();
    results.set_value_count("users", "name", 7);
    results.set_value_count("posts", "bio", 7);
    results.set_row_count("users", 7);
    let warning = SqlMigrationWarning::NonEmptyColumnDrop {
        table: "users".to_string(),
        column: "bio".to_string(),
    };
    let message = warning.render(&results).unwrap();
    assert!(!message.chars().any(|c| c.is_ascii_digit()));
}

#[test]
fn removing_a_foreign_key_default_always_warns() {
    let warning = SqlMigrationWarning::ForeignKeyDefaultValueRemoved {
        table: "orders".to_string(),
        column: "customer_id".to_string(),
    };
    let expected =
        "The migration is about to remove a default value on the foreign key field `orders.customer_id`.";

    let unknown = DatabaseCheckResults::new();
    assert_eq!(warning.render(&unknown), Some(expected.to_string()));

    let mut empty = DatabaseCheckResults::new();
    empty.set_row_count("orders", 0);
    empty.set_value_count("orders", "customer_id", 0);
    assert_eq!(warning.render(&empty), Some(expected.to_string()));

    let mut populated = DatabaseCheckResults::new();
    populated.set_row_count("orders", 12);
    populated.set_value_count("orders", "customer_id", 11);
    assert_eq!(warning.render(&populated), Some(expected.to_string()));

    assert_eq!(warning.check_row_count(), None);
    assert_eq!(warning.check_existing_values(), None);
}

#[test]
fn narrowing_a_column_with_values_blocks_the_migration() {
    let mut plan = DestructiveCheckPlan::new();
    plan.push_unexecutable(SqlUnexecutableMigration::ColumnNarrowing {
        table: "users".to_string(),
        column: "age".to_string(),
    });
    let mut results = DatabaseCheckResults::new();
    results.set_value_count("users", "age", 3);

    let diagnostics = plan.execute(&results);
    assert!(diagnostics.warnings.is_empty());
    assert_eq!(diagnostics.unexecutable_migrations.len(), 1);
    assert!(!diagnostics.unexecutable_migrations[0].is_empty());
    assert_eq!(
        diagnostics.unexecutable_migrations[0],
        "The type of the column `age` on the `users` table is being narrowed, but the column still contains 3 non-null values that may not fit. This migration cannot be executed."
    );
    assert!(diagnostics.blocks_migration());
}

#[test]
fn narrowing_a_column_without_values_does_not_block() {
    let mut plan = DestructiveCheckPlan::new();
    plan.push_unexecutable(SqlUnexecutableMigration::ColumnNarrowing {
        table: "users".to_string(),
        column: "age".to_string(),
    });
    let mut results = DatabaseCheckResults::new();
    results.set_value_count("users", "age", 0);

    let diagnostics = plan.execute(&results);
    assert!(diagnostics.unexecutable_migrations.is_empty());
    assert!(!diagnostics.blocks_migration());
}
