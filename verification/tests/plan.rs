use destructive_changes_checker::database_check::{DatabaseCheck, DatabaseCheckResults};
use destructive_changes_checker::destructive_check_plan::DestructiveCheckPlan;
use destructive_changes_checker::sql_migration_warning::SqlMigrationWarning;
use destructive_changes_checker::sql_unexecutable_migration::SqlUnexecutableMigration;

fn table_drop(table: &str) -> SqlMigrationWarning {
    SqlMigrationWarning::NonEmptyTableDrop { table: table.to_string() }
}

fn column_drop(table: &str, column: &str) -> SqlMigrationWarning {
    SqlMigrationWarning::NonEmptyColumnDrop { table: table.to_string(), column: column.to_string() }
}

fn alter_column(table: &str, column: &str) -> SqlMigrationWarning {
    SqlMigrationWarning::AlterColumn { table: table.to_string(), column: column.to_string() }
}

fn default_removed(table: &str, column: &str) -> SqlMigrationWarning {
    SqlMigrationWarning::ForeignKeyDefaultValueRemoved {
        table: table.to_string(),
        column: column.to_string(),
    }
}

fn narrowing(table: &str, column: &str) -> SqlUnexecutableMigration {
    SqlUnexecutableMigration::ColumnNarrowing {
        table: table.to_string(),
        column: column.to_string(),
    }
}

fn constrained_drop(table: &str, column: &str) -> SqlUnexecutableMigration {
    SqlUnexecutableMigration::ConstrainedColumnDrop {
        table: table.to_string(),
        column: column.to_string(),
    }
}

fn rows(table: &str) -> DatabaseCheck {
    DatabaseCheck::TableNotEmpty { table: table.to_string() }
}

fn values(table: &str, column: &str) -> DatabaseCheck {
    DatabaseCheck::ColumnHasValues { table: table.to_string(), column: column.to_string() }
}

#[test]
fn an_empty_plan_needs_nothing_and_reports_nothing() {
    let plan = DestructiveCheckPlan::new();
    assert!(plan.database_checks().is_empty());
    let diagnostics = plan.execute(&DatabaseCheckResults::new());
    assert!(diagnostics.warnings.is_empty());
    assert!(diagnostics.unexecutable_migrations.is_empty());
    assert!(!diagnostics.blocks_migration());
}

#[test]
fn a_table_needed_by_many_changes_is_checked_once() {
    let mut plan = DestructiveCheckPlan::new();
    plan.push_warning(table_drop("users"));
    plan.push_warning(table_drop("users"));
    plan.push_unexecutable(constrained_drop("users", "team_id"));
    plan.push_unexecutable(constrained_drop("users", "boss_id"));
    plan.push_warning(table_drop("users"));
    assert_eq!(plan.database_checks(), vec![rows("users")]);
}

#[test]
fn a_column_needed_by_many_changes_is_checked_once() {
    let mut plan = DestructiveCheckPlan::new();
    plan.push_warning(column_drop("users", "bio"));
    plan.push_warning(alter_column("users", "bio"));
    plan.push_unexecutable(narrowing("users", "bio"));
    assert_eq!(plan.database_checks(), vec![values("users", "bio")]);
}

#[test]
fn checks_come_in_the_order_of_first_need_warnings_first() {
    let mut plan = DestructiveCheckPlan::new();
    plan.push_unexecutable(narrowing("c", "x"));
    plan.push_warning(table_drop("b"));
    plan.push_unexecutable(constrained_drop("a", "y"));
    plan.push_warning(column_drop("a", "y"));
    plan.push_warning(default_removed("d", "z"));
    plan.push_warning(table_drop("a"));
    plan.push_warning(alter_column("c", "x"));
    assert_eq!(
        plan.database_checks(),
        vec![rows("b"), values("a", "y"), rows("a"), values("c", "x")]
    );
}

#[test]
fn a_change_that_asks_nothing_adds_no_check() {
    let mut plan = DestructiveCheckPlan::new();
    plan.push_warning(default_removed("orders", "customer_id"));
    assert!(plan.database_checks().is_empty());
}

#[test]
fn the_row_count_and_the_value_count_of_one_table_are_two_checks() {
    let mut plan = DestructiveCheckPlan::new();
    plan.push_warning(table_drop("users"));
    plan.push_warning(column_drop("users", "users"));
    assert_eq!(plan.database_checks(), vec![rows("users"), values("users", "users")]);
}

#[test]
fn warnings_come_out_in_the_order_of_registration() {
    let mut plan = DestructiveCheckPlan::new();
    plan.push_warning(table_drop("c"));
    plan.push_warning(column_drop("a", "x"));
    plan.push_warning(table_drop("empty"));
    plan.push_warning(default_removed("b", "y"));
    plan.push_warning(alter_column("a", "z"));
    let mut results = DatabaseCheckResults::new();
    results.set_row_count("c", 3);
    results.set_row_count("empty", 0);
    results.set_value_count("a", "x", 2);
    let diagnostics = plan.execute(&results);
    assert_eq!(
        diagnostics.warnings,
        vec![
            "You are about to drop the table `c`, which is not empty (3 rows).".to_string(),
            "You are about to drop the column `x` on the `a` table, which still contains 2 non-null values."
                .to_string(),
            "The migration is about to remove a default value on the foreign key field `b.y`."
                .to_string(),
            "You are about to alter the column `z` on the `a` table. If the column contains non-null values, the data in that column will be lost."
                .to_string(),
        ]
    );
    assert!(diagnostics.unexecutable_migrations.is_empty());
}

#[test]
fn every_reason_against_the_migration_is_reported_in_order() {
    let mut plan = DestructiveCheckPlan::new();
    plan.push_unexecutable(narrowing("t", "b"));
    plan.push_unexecutable(narrowing("t", "zero"));
    plan.push_unexecutable(constrained_drop("t", "a"));
    plan.push_warning(table_drop("t"));
    let mut results = DatabaseCheckResults::new();
    results.set_row_count("t", 10);
    results.set_value_count("t", "b", 9);
    results.set_value_count("t", "zero", 0);
    let diagnostics = plan.execute(&results);
    assert_eq!(
        diagnostics.unexecutable_migrations,
        vec![
            "The type of the column `b` on the `t` table is being narrowed, but the column still contains 9 non-null values that may not fit. This migration cannot be executed."
                .to_string(),
            "The column `a` on the `t` table is referenced by a constraint that cannot be replaced, and the table is not empty (10 rows). This migration cannot be executed."
                .to_string(),
        ]
    );
    assert_eq!(
        diagnostics.warnings,
        vec!["You are about to drop the table `t`, which is not empty (10 rows).".to_string()]
    );
    assert!(diagnostics.blocks_migration());
}

#[test]
fn equal_changes_each_leave_their_message() {
    let mut plan = DestructiveCheckPlan::new();
    plan.push_warning(table_drop("users"));
    plan.push_warning(table_drop("users"));
    let mut results = DatabaseCheckResults::new();
    results.set_row_count("users", 1);
    let diagnostics = plan.execute(&results);
    assert_eq!(diagnostics.warnings.len(), 2);
    assert_eq!(diagnostics.warnings[0], diagnostics.warnings[1]);
}

#[test]
fn without_any_fact_every_change_is_reported() {
    let mut plan = DestructiveCheckPlan::new();
    plan.push_warning(table_drop("a"));
    plan.push_warning(column_drop("a", "x"));
    plan.push_warning(alter_column("a", "y"));
    plan.push_warning(default_removed("a", "z"));
    plan.push_unexecutable(narrowing("a", "x"));
    plan.push_unexecutable(constrained_drop("a", "x"));
    let diagnostics = plan.execute(&DatabaseCheckResults::new());
    assert_eq!(diagnostics.warnings.len(), 4);
    assert_eq!(diagnostics.unexecutable_migrations.len(), 2);
    assert!(diagnostics.warnings.iter().all(|message| !message.is_empty()));
    assert!(diagnostics.unexecutable_migrations.iter().all(|message| !message.is_empty()));
    assert!(diagnostics.blocks_migration());
}

#[test]
fn a_fact_that_could_not_be_read_degrades_only_the_changes_that_need_it() {
    let mut plan = DestructiveCheckPlan::new();
    plan.push_warning(table_drop("read"));
    plan.push_warning(table_drop("unread"));
    let checks = plan.database_checks();
    assert_eq!(checks, vec![rows("read"), rows("unread")]);
    let mut results = DatabaseCheckResults::new();
    results.set_answer(&checks[0], Some(0));
    results.set_answer(&checks[1], None);
    let diagnostics = plan.execute(&results);
    assert_eq!(
        diagnostics.warnings,
        vec![
            "You are about to drop the `unread` table. If the table is not empty, all the data it contains will be lost."
                .to_string()
        ]
    );
}

#[test]
fn the_checks_of_a_plan_answered_with_zero_silence_all_that_ask() {
    let mut plan = DestructiveCheckPlan::new();
    plan.push_warning(table_drop("a"));
    plan.push_warning(column_drop("a", "x"));
    plan.push_warning(default_removed("a", "z"));
    plan.push_unexecutable(narrowing("b", "x"));
    plan.push_unexecutable(constrained_drop("c", "x"));
    let mut results = DatabaseCheckResults::new();
    for check in plan.database_checks() {
        results.set_answer(&check, Some(0));
    }
    let diagnostics = plan.execute(&results);
    assert_eq!(
        diagnostics.warnings,
        vec!["The migration is about to remove a default value on the foreign key field `a.z`."
            .to_string()]
    );
    assert!(diagnostics.unexecutable_migrations.is_empty());
    assert!(!diagnostics.blocks_migration());
}

#[test]
fn warnings_alone_do_not_block() {
    let mut plan = DestructiveCheckPlan::new();
    plan.push_warning(table_drop("a"));
    let diagnostics = plan.execute(&DatabaseCheckResults::new());
    assert_eq!(diagnostics.warnings.len(), 1);
    assert!(!diagnostics.blocks_migration());
}
