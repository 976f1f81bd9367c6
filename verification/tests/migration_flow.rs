use memory_ledger::adapters::sqlite::lifecycle::{
    inspection_report, required_tables, schema_migrations, DatabaseLifecycleReport, DatabaseTableCount,
};
use memory_ledger::adapters::sqlite::migration_flow::{
    migrate_step, MigrationAction, MigrationEvent, MigrationState,
};
use memory_ledger::domain::error::AppError;

fn count(table: &str, rows: i64) -> DatabaseTableCount {
    DatabaseTableCount { table: table.to_string(), rows }
}

fn old_database(events: i64) -> DatabaseLifecycleReport {
    inspection_report(
        "read_only_inspection",
        true,
        None,
        1,
        &["events".to_string(), "claims".to_string()],
        &schema_migrations()[..1],
        0,
        vec![count("events", events)],
        None,
    )
}

fn current_database(events: i64) -> DatabaseLifecycleReport {
    inspection_report(
        "read_only_inspection",
        true,
        None,
        3,
        &required_tables(),
        &schema_migrations(),
        0,
        vec![count("identity_claims", 1), count("commitments", 1), count("events", events)],
        Some(1),
    )
}

/// Runs a migration of an old database up to the inspection before the
/// write.
fn up_to_pre_write_check() -> MigrationState {
    let (state, action) = migrate_step(MigrationState::Starting, MigrationEvent::Start);
    assert!(matches!(action, MigrationAction::Inspect));
    let (state, action) = migrate_step(state, MigrationEvent::Inspected(old_database(3)));
    match action {
        MigrationAction::CreateBackup(version) => assert_eq!(version, Some(1)),
        other => panic!("unexpected {other:?}"),
    }
    let (state, action) = migrate_step(state, MigrationEvent::BackedUp("/tmp/db.v1.bak".to_string()));
    match action {
        MigrationAction::Rehearse(path) => assert_eq!(path, "/tmp/db.v1.bak"),
        other => panic!("unexpected {other:?}"),
    }
    let (state, action) = migrate_step(state, MigrationEvent::Rehearsed(current_database(3)));
    assert!(matches!(action, MigrationAction::InspectBeforeWrite));
    state
}

#[test]
fn original_is_written_after_backup_rehearsal_and_unchanged_check() {
    let state = up_to_pre_write_check();
    let (state, action) = migrate_step(state, MigrationEvent::PreWriteInspected(old_database(3)));
    assert!(matches!(action, MigrationAction::WriteOriginal));
    let (state, action) = migrate_step(state, MigrationEvent::Migrated(current_database(3)));
    assert!(matches!(state, MigrationState::Done));
    match action {
        MigrationAction::Return(Ok(report)) => {
            assert_eq!(report.operation, "migrate");
            assert_eq!(report.backup_path.as_deref(), Some("/tmp/db.v1.bak"));
            assert_eq!(report.restore_rehearsal, "passed_before_original_write");
            assert_eq!(report.message, "database migrated after backup and restore rehearsal");
        }
        other => panic!("unexpected {other:?}"),
    }
}

#[test]
fn moving_target_is_not_written() {
    let state = up_to_pre_write_check();
    let (state, action) = migrate_step(state, MigrationEvent::PreWriteInspected(old_database(4)));
    assert!(matches!(state, MigrationState::Done));
    match action {
        MigrationAction::Return(Err(AppError::Message(m))) => {
            assert_eq!(m, "database changed after backup rehearsal; refusing to migrate a moving target")
        }
        other => panic!("unexpected {other:?}"),
    }
}

#[test]
fn failed_rehearsal_stops_before_the_write() {
    let (state, _) = migrate_step(MigrationState::Starting, MigrationEvent::Start);
    let (state, _) = migrate_step(state, MigrationEvent::Inspected(old_database(3)));
    let (state, _) = migrate_step(state, MigrationEvent::BackedUp("b".to_string()));
    let (state, action) = migrate_step(state, MigrationEvent::Rehearsed(old_database(3)));
    assert!(matches!(state, MigrationState::Done));
    match action {
        MigrationAction::Return(Err(AppError::Message(m))) => {
            assert_eq!(m, "restore rehearsal did not reach current schema: migration_required")
        }
        other => panic!("unexpected {other:?}"),
    }
}

#[test]
fn current_database_is_not_backed_up() {
    let (state, _) = migrate_step(MigrationState::Starting, MigrationEvent::Start);
    let (state, action) = migrate_step(state, MigrationEvent::Inspected(current_database(2)));
    assert!(matches!(state, MigrationState::Done));
    match action {
        MigrationAction::Return(Ok(report)) => assert_eq!(report.restore_rehearsal, "not_needed_current"),
        other => panic!("unexpected {other:?}"),
    }
}

#[test]
fn readback_must_match_the_rehearsal() {
    let state = up_to_pre_write_check();
    let (state, _) = migrate_step(state, MigrationEvent::PreWriteInspected(old_database(3)));
    let (_, action) = migrate_step(state, MigrationEvent::Migrated(current_database(5)));
    match action {
        MigrationAction::Return(Err(AppError::Message(m))) => assert_eq!(
            m,
            "migrated database row-count readback differs from restore rehearsal; backup remains available"
        ),
        other => panic!("unexpected {other:?}"),
    }
}
