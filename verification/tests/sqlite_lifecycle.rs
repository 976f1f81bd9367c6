use memory_ledger::adapters::sqlite::lifecycle::{
    already_current_report, backup_file_name, bootstrap_action, check_foreign_keys,
    check_migrated, check_rehearsal, check_supported_version, check_unchanged, init_refusal,
    initialized_report, inspection_report, ledger_is_consistent, ledger_rows_match,
    migrate_precheck, migrated_report, migration_step, pending_migrations, preserved_tables,
    require_file_path, required_tables, required_tables_present, same_counts, schema_migrations,
    serve_readiness, sqlite_file_path, sqlite_files, sqlite_url, table_count, user_version_statement,
    vacuum_into_statement, validate_existing_ledger, validate_preserved_counts, BootstrapAction,
    DatabaseLifecycleReport, DatabaseTableCount, MigrationRecord, MigrationStep,
    CURRENT_DATABASE_SCHEMA_VERSION,
};
use memory_ledger::adapters::sqlite::schema::{
    claims_table_sql, init_sql, legacy_namespace_backfill_expression, sql_statements,
};
use memory_ledger::domain::error::AppError;

fn names(items: &[&str]) -> Vec<String> {
    items.iter().map(|s| s.to_string()).collect()
}

fn count(table: &str, rows: i64) -> DatabaseTableCount {
    DatabaseTableCount { table: table.to_string(), rows }
}

fn full_ledger() -> Vec<MigrationRecord> {
    schema_migrations()
}

fn current_counts() -> Vec<DatabaseTableCount> {
    vec![count("identity_claims", 1), count("commitments", 1), count("events", 3)]
}

fn message(e: &AppError) -> String {
    e.message()
}

#[test]
fn file_path_is_the_text_between_scheme_and_options() {
    assert_eq!(sqlite_file_path("sqlite://data/memory.db"), Some("data/memory.db".to_string()));
    assert_eq!(
        sqlite_file_path("sqlite://data/memory.db?mode=rwc"),
        Some("data/memory.db".to_string())
    );
    assert_eq!(sqlite_file_path("sqlite://:memory:"), None);
    assert_eq!(sqlite_file_path("sqlite://"), None);
    assert_eq!(sqlite_file_path("sqlite://?mode=memory"), None);
    assert_eq!(sqlite_file_path("postgres://host/db"), None);
}

#[test]
fn non_file_url_is_refused_by_lifecycle_commands() {
    let err = require_file_path("sqlite::memory:").unwrap_err();
    assert_eq!(message(&err), "explicit database lifecycle requires a file-backed sqlite URL");
    assert!(matches!(err, AppError::Message(_)));
    assert_eq!(require_file_path("sqlite://a.db").unwrap(), "a.db");
}

#[test]
fn resting_reports_name_their_status() {
    let missing = DatabaseLifecycleReport::missing(Some(true));
    assert_eq!(missing.status, "missing");
    assert_eq!(missing.operation, "read_only_inspection");
    assert!(missing.file_backed);
    assert_eq!(missing.path_writable_hint, Some(true));
    assert_eq!(missing.target_schema_version, CURRENT_DATABASE_SCHEMA_VERSION);
    assert_eq!(
        missing.message,
        "database file does not exist; run init or doctor --allow-bootstrap"
    );
    assert!(!missing.is_current());
    let other = DatabaseLifecycleReport::unsupported_non_file();
    assert_eq!(other.status, "unsupported_non_file_database");
    assert!(!other.file_backed);
    assert_eq!(other.restore_rehearsal, "not_applicable");
}

#[test]
fn required_and_preserved_tables_are_listed_in_order() {
    let required = required_tables();
    assert_eq!(required.len(), 10);
    assert_eq!(required[0], "events");
    assert_eq!(required[9], "schema_migrations");
    let preserved = preserved_tables();
    assert_eq!(preserved.len(), 7);
    assert_eq!(preserved[6], "operation_log");
    assert!(required_tables_present(&required));
    assert!(!required_tables_present(&names(&["events", "claims"])));
}

#[test]
fn table_count_takes_the_first_count_or_zero() {
    let counts = vec![count("events", 4), count("events", 9), count("claims", 2)];
    assert_eq!(table_count(&counts, "events"), 4);
    assert_eq!(table_count(&counts, "claims"), 2);
    assert_eq!(table_count(&counts, "reflections"), 0);
}

#[test]
fn ledger_consistency_follows_the_schema_version() {
    let tables = required_tables();
    assert!(ledger_is_consistent(3, &tables, &full_ledger()));
    assert!(!ledger_is_consistent(3, &tables, &full_ledger()[..2]));
    assert!(ledger_is_consistent(2, &tables, &full_ledger()[..2]));
    assert!(!ledger_is_consistent(0, &tables, &[]));
    assert!(ledger_is_consistent(0, &names(&["events"]), &[]));
    assert!(!ledger_is_consistent(1, &names(&["events"]), &full_ledger()[..1]));
    let renamed = vec![MigrationRecord { version: 1, name: "other".to_string() }];
    assert!(!ledger_rows_match(&renamed, 1));
}

#[test]
fn existing_ledger_errors_name_the_version() {
    assert!(validate_existing_ledger(0, false, &[]).is_ok());
    let missing = validate_existing_ledger(2, false, &[]).unwrap_err();
    assert_eq!(message(&missing), "schema version is 2 but schema_migrations ledger is missing");
    let wrong = validate_existing_ledger(3, true, &full_ledger()[..1]).unwrap_err();
    assert_eq!(message(&wrong), "schema_migrations ledger is inconsistent with schema version 3");
    assert!(validate_existing_ledger(3, true, &full_ledger()).is_ok());
}

#[test]
fn inspection_of_a_complete_database_is_current() {
    let report = inspection_report(
        "read_only_inspection",
        true,
        Some(true),
        3,
        &required_tables(),
        &full_ledger(),
        0,
        current_counts(),
        Some(1),
    );
    assert_eq!(report.status, "current");
    assert!(report.is_current());
    assert!(!report.migration_required);
    assert!(report.runtime_defaults_present);
    assert_eq!(report.schema_version, Some(3));
    assert_eq!(
        report.message,
        "database schema, migration ledger, foreign keys, and runtime defaults are current"
    );
}

#[test]
fn inspection_without_runtime_defaults_needs_bootstrap() {
    let report = inspection_report(
        "read_only_inspection",
        true,
        None,
        3,
        &required_tables(),
        &full_ledger(),
        0,
        vec![count("identity_claims", 0)],
        Some(1),
    );
    assert_eq!(report.status, "bootstrap_required");
    assert!(!report.migration_required);
    assert_eq!(
        report.message,
        "schema is current but explicit runtime-default bootstrap is required"
    );
}

#[test]
fn inspection_of_an_old_database_needs_migration() {
    let report = inspection_report(
        "read_only_inspection",
        true,
        None,
        1,
        &names(&["events", "claims"]),
        &full_ledger()[..1],
        0,
        Vec::new(),
        None,
    );
    assert_eq!(report.status, "migration_required");
    assert!(report.migration_required);
    assert_eq!(report.message, "database requires explicit migration from version 1 to 3");
}

#[test]
fn inspection_of_a_newer_database_is_unsupported() {
    let report = inspection_report(
        "read_only_inspection",
        true,
        None,
        7,
        &required_tables(),
        &full_ledger(),
        0,
        current_counts(),
        Some(1),
    );
    assert_eq!(report.status, "unsupported_newer_schema");
    assert_eq!(report.message, "database schema version 7 is newer than supported version 3");
}

#[test]
fn foreign_key_violations_block_a_current_status() {
    let report = inspection_report(
        "read_only_inspection",
        true,
        None,
        3,
        &required_tables(),
        &full_ledger(),
        2,
        current_counts(),
        Some(1),
    );
    assert_eq!(report.status, "migration_required");
    assert_eq!(report.foreign_key_violations, 2);
}

#[test]
fn migration_support_messages() {
    assert!(check_supported_version(3).is_ok());
    assert_eq!(
        message(&check_supported_version(4).unwrap_err()),
        "database schema version 4 is newer than supported version 3"
    );
    assert_eq!(migration_step(1).unwrap(), MigrationStep::CreateInitialSchema);
    assert_eq!(migration_step(2).unwrap(), MigrationStep::AddNamespaceColumns);
    assert_eq!(migration_step(3).unwrap(), MigrationStep::AddReflectionAuditColumns);
    assert_eq!(
        message(&migration_step(9).unwrap_err()),
        "missing migration implementation for version 9"
    );
    assert_eq!(user_version_statement(3), "PRAGMA user_version = 3");
    assert!(check_foreign_keys(0).is_ok());
    assert_eq!(
        message(&check_foreign_keys(2).unwrap_err()),
        "foreign_key_check found 2 violation(s); migration rolled back"
    );
}

#[test]
fn pending_migrations_are_those_above_the_version() {
    let from_one = pending_migrations(1);
    assert_eq!(from_one.len(), 2);
    assert_eq!(from_one[0].version, 2);
    assert_eq!(from_one[1].version, 3);
    assert_eq!(pending_migrations(0).len(), 3);
    assert_eq!(pending_migrations(3).len(), 0);
    assert_eq!(pending_migrations(-5).len(), 3);
}

#[test]
fn preserved_counts_must_survive_a_migration() {
    let before = vec![count("events", 3), count("claims", 2)];
    assert!(validate_preserved_counts(&before, &vec![count("claims", 2), count("events", 3)])
        .is_ok());
    let gone = validate_preserved_counts(&before, &vec![count("events", 3)]).unwrap_err();
    assert_eq!(message(&gone), "preserved table disappeared during migration: claims");
    let changed =
        validate_preserved_counts(&before, &vec![count("events", 4), count("claims", 2)])
            .unwrap_err();
    assert_eq!(message(&changed), "row count changed during migration for events: 3 -> 4");
}

#[test]
fn init_report_requires_a_current_readback() {
    let current = inspection_report(
        "read_only_inspection",
        true,
        None,
        3,
        &required_tables(),
        &full_ledger(),
        0,
        current_counts(),
        Some(1),
    );
    let report = initialized_report(current).unwrap();
    assert_eq!(report.operation, "init");
    assert!(report.bootstrap_performed);
    assert_eq!(report.restore_rehearsal, "not_applicable_new_database");
    assert_eq!(report.message, "database initialized with current schema and runtime defaults");
    let err = initialized_report(DatabaseLifecycleReport::missing(None)).unwrap_err();
    assert_eq!(message(&err), "initialized database did not pass current-schema readback: missing");
    assert_eq!(
        message(&init_refusal("/tmp/a.db")),
        "init refuses to overwrite existing sqlite database: /tmp/a.db"
    );
}

#[test]
fn migrate_precheck_refuses_missing_and_newer_databases() {
    let missing = migrate_precheck(&DatabaseLifecycleReport::missing(None)).unwrap_err();
    assert_eq!(message(&missing), "migrate requires an existing database; run init first");
    let newer = inspection_report(
        "read_only_inspection",
        true,
        None,
        9,
        &required_tables(),
        &full_ledger(),
        0,
        current_counts(),
        Some(1),
    );
    let err = migrate_precheck(&newer).unwrap_err();
    assert_eq!(message(&err), newer.message);
    let current = inspection_report(
        "read_only_inspection",
        true,
        None,
        3,
        &required_tables(),
        &full_ledger(),
        0,
        current_counts(),
        Some(1),
    );
    assert_eq!(migrate_precheck(&current).unwrap(), true);
    let report = already_current_report(current);
    assert_eq!(report.operation, "migrate");
    assert_eq!(report.restore_rehearsal, "not_needed_current");
    assert_eq!(report.message, "database already uses the current schema");
}

#[test]
fn migration_readbacks_are_checked() {
    let current = inspection_report(
        "read_only_inspection",
        true,
        None,
        3,
        &required_tables(),
        &full_ledger(),
        0,
        current_counts(),
        Some(1),
    );
    let stale = DatabaseLifecycleReport::missing(None);
    assert!(check_rehearsal(&current).is_ok());
    assert_eq!(
        message(&check_rehearsal(&stale).unwrap_err()),
        "restore rehearsal did not reach current schema: missing"
    );
    assert!(check_unchanged(&current, &current.clone()).is_ok());
    let mut moved = current.clone();
    moved.table_counts = vec![count("events", 99)];
    assert_eq!(
        message(&check_unchanged(&current, &moved).unwrap_err()),
        "database changed after backup rehearsal; refusing to migrate a moving target"
    );
    assert!(check_migrated(&current, &current.clone()).is_ok());
    assert_eq!(
        message(&check_migrated(&stale, &current).unwrap_err()),
        "migration completed but current-schema readback failed: missing"
    );
    let mut differing = current.clone();
    differing.table_counts = vec![count("events", 1)];
    assert_eq!(
        message(&check_migrated(&differing, &current).unwrap_err()),
        "migrated database row-count readback differs from restore rehearsal; backup remains available"
    );
    assert!(same_counts(&current.table_counts, &current_counts()));
    let report = migrated_report(current, "/tmp/a.db.bak".to_string());
    assert_eq!(report.backup_path, Some("/tmp/a.db.bak".to_string()));
    assert_eq!(report.restore_rehearsal, "passed_before_original_write");
    assert_eq!(report.message, "database migrated after backup and restore rehearsal");
}

#[test]
fn serve_and_bootstrap_decisions() {
    let missing = DatabaseLifecycleReport::missing(None);
    assert_eq!(bootstrap_action(&missing), BootstrapAction::Initialize);
    assert_eq!(
        message(&serve_readiness(&missing).unwrap_err()),
        "database is not ready for serve: missing; run init, migrate, or doctor --allow-bootstrap"
    );
    let current = inspection_report(
        "read_only_inspection",
        true,
        None,
        3,
        &required_tables(),
        &full_ledger(),
        0,
        current_counts(),
        Some(1),
    );
    assert_eq!(bootstrap_action(&current), BootstrapAction::OpenAsIs);
    assert!(serve_readiness(&current).is_ok());
    let old = inspection_report(
        "read_only_inspection",
        true,
        None,
        1,
        &required_tables(),
        &full_ledger()[..1],
        0,
        Vec::new(),
        None,
    );
    assert_eq!(bootstrap_action(&old), BootstrapAction::Migrate);
}

#[test]
fn backup_and_path_texts() {
    assert_eq!(
        backup_file_name("memory.db", Some(1), "20240101T000000000000000Z"),
        "memory.db.pre-migrate-v1-to-v3-20240101T000000000000000Z.bak"
    );
    assert_eq!(backup_file_name("m.db", None, "T"), "m.db.pre-migrate-v0-to-v3-T.bak");
    assert_eq!(sqlite_url("C:\\data\\m.db"), "sqlite://C:/data/m.db");
    assert_eq!(vacuum_into_statement("/tmp/it's.bak"), "VACUUM INTO '/tmp/it''s.bak'");
    assert_eq!(sqlite_files("/tmp/m.db"), names(&["/tmp/m.db", "/tmp/m.db-wal", "/tmp/m.db-shm"]));
}

#[test]
fn schema_script_splits_into_its_statements() {
    let statements = sql_statements(&init_sql());
    assert_eq!(statements.len(), 7);
    assert!(statements[0].contains("CREATE TABLE IF NOT EXISTS events"));
    assert!(statements[1].contains("CREATE TABLE IF NOT EXISTS claims"));
    assert!(statements[1].contains("CONSTRAINT owner_namespace_scope CHECK"));
    assert_eq!(sql_statements("a; ;b;\n"), names(&["a", "b"]));
    assert_eq!(sql_statements(""), Vec::<String>::new());
}

#[test]
fn claims_table_statement_with_and_without_if_not_exists() {
    assert!(claims_table_sql(true).starts_with("\nCREATE TABLE IF NOT EXISTS claims ("));
    assert!(claims_table_sql(false).starts_with("\nCREATE TABLE claims ("));
    assert!(claims_table_sql(false).ends_with("\n)"));
    assert!(legacy_namespace_backfill_expression(true).starts_with("COALESCE(NULLIF(namespace, ''),"));
    assert!(legacy_namespace_backfill_expression(false).starts_with("CASE owner"));
}
