//! The course of `migrate`, as a machine that takes what each inspection,
//! backup and migration reported and says what to do next. Whoever runs it
//! performs each action on the database files and hands back the report.
use vstd::prelude::*;

use crate::adapters::sqlite::lifecycle::{
    already_current_report, check_migrated, check_rehearsal, check_unchanged, counts_view,
    migrate_precheck, migrated_report, same_findings, DatabaseLifecycleReport,
};
use crate::domain::error::AppError;
use crate::seqs::opt_text;

verus! {

/// Where a migration stands.
#[derive(Debug)]
pub enum MigrationState {
    /// Nothing has been done yet.
    Starting,
    /// Waiting for the first inspection of the database.
    AwaitingInspection,
    /// Waiting for the backup anchor; the first inspection.
    AwaitingBackup(DatabaseLifecycleReport),
    /// Waiting for the restore rehearsal on a copy of the backup; the first
    /// inspection and the backup's path.
    AwaitingRehearsal(DatabaseLifecycleReport, String),
    /// Waiting for the inspection just before the write; the first
    /// inspection, the backup's path and the rehearsal's report.
    AwaitingPreWriteCheck(DatabaseLifecycleReport, String, DatabaseLifecycleReport),
    /// Waiting for the readback of the migrated database; the backup's path
    /// and the rehearsal's report.
    AwaitingReadback(String, DatabaseLifecycleReport),
    /// The migration has ended.
    Done,
}

/// What was reported for the last action.
#[derive(Debug)]
pub enum MigrationEvent {
    /// The migration begins.
    Start,
    /// The first inspection of the database.
    Inspected(DatabaseLifecycleReport),
    /// The path of the backup anchor that was written.
    BackedUp(String),
    /// The inspection of the rehearsal copy after migrating it.
    Rehearsed(DatabaseLifecycleReport),
    /// The inspection of the database just before the write.
    PreWriteInspected(DatabaseLifecycleReport),
    /// The inspection of the database after migrating it.
    Migrated(DatabaseLifecycleReport),
}

/// What to do next.
#[derive(Debug)]
pub enum MigrationAction {
    /// Return this outcome.
    Return(Result<DatabaseLifecycleReport, AppError>),
    /// Inspect the database.
    Inspect,
    /// Write a backup anchor of the database, named for this schema version.
    CreateBackup(Option<i64>),
    /// Copy the backup at this path, migrate the copy and inspect it.
    Rehearse(String),
    /// Inspect the database again before writing to it.
    InspectBeforeWrite,
    /// Migrate the database itself and inspect it.
    WriteOriginal,
}

/// The event answers the action that led to the state.
pub open spec fn migration_fits(s: MigrationState, e: MigrationEvent) -> bool {
    match (s, e) {
        (MigrationState::Starting, MigrationEvent::Start) => true,
        (MigrationState::AwaitingInspection, MigrationEvent::Inspected(_)) => true,
        (MigrationState::AwaitingBackup(_), MigrationEvent::BackedUp(_)) => true,
        (MigrationState::AwaitingRehearsal(_, _), MigrationEvent::Rehearsed(_)) => true,
        (MigrationState::AwaitingPreWriteCheck(_, _, _), MigrationEvent::PreWriteInspected(_)) => true,
        (MigrationState::AwaitingReadback(_, _), MigrationEvent::Migrated(_)) => true,
        _ => false,
    }
}

/// The database read back just before the write is the one first inspected:
/// the same schema version and the same table counts.
pub open spec fn unchanged(initial: DatabaseLifecycleReport, pre: DatabaseLifecycleReport) -> bool {
    initial.schema_version == pre.schema_version && counts_view(initial.table_counts@) == counts_view(
        pre.table_counts@,
    )
}

/// `a` returns the error `message` (of kind `Message`) and the run ends.
pub open spec fn fails_with(next: MigrationState, a: MigrationAction, message: Seq<char>) -> bool {
    &&& next is Done
    &&& a matches MigrationAction::Return(Err(e)) && e is Message && e.message_view() == message
}

/// What one step does, state by state.
pub open spec fn migration_stepped(
    s: MigrationState,
    e: MigrationEvent,
    next: MigrationState,
    a: MigrationAction,
) -> bool {
    match (s, e) {
        (MigrationState::Starting, MigrationEvent::Start) => {
            next is AwaitingInspection && a is Inspect
        },
        (MigrationState::AwaitingInspection, MigrationEvent::Inspected(initial)) => {
            if initial.status@ == "missing"@ {
                fails_with(next, a, "migrate requires an existing database; run init first"@)
            } else if initial.status@ == "unsupported_newer_schema"@ {
                fails_with(next, a, initial.message@)
            } else if initial.status@ == "current"@ {
                &&& next is Done
                &&& a matches MigrationAction::Return(Ok(r)) && same_findings(r, initial)
                    && r.operation@ == "migrate"@ && r.backup_path == initial.backup_path
                    && r.bootstrap_performed == initial.bootstrap_performed
                    && r.restore_rehearsal@ == "not_needed_current"@ && r.message@
                    == "database already uses the current schema"@
            } else {
                &&& next == MigrationState::AwaitingBackup(initial)
                &&& a matches MigrationAction::CreateBackup(v) && v == initial.schema_version
            }
        },
        (MigrationState::AwaitingBackup(initial), MigrationEvent::BackedUp(path)) => {
            &&& next == MigrationState::AwaitingRehearsal(initial, path)
            &&& a matches MigrationAction::Rehearse(p) && p@ == path@
        },
        (MigrationState::AwaitingRehearsal(initial, path), MigrationEvent::Rehearsed(rehearsal)) => {
            if rehearsal.status@ == "current"@ {
                &&& next == MigrationState::AwaitingPreWriteCheck(initial, path, rehearsal)
                &&& a is InspectBeforeWrite
            } else {
                fails_with(
                    next,
                    a,
                    "restore rehearsal did not reach current schema: "@ + rehearsal.status@,
                )
            }
        },
        (
            MigrationState::AwaitingPreWriteCheck(initial, path, rehearsal),
            MigrationEvent::PreWriteInspected(pre),
        ) => {
            if unchanged(initial, pre) {
                &&& next == MigrationState::AwaitingReadback(path, rehearsal)
                &&& a is WriteOriginal
            } else {
                fails_with(
                    next,
                    a,
                    "database changed after backup rehearsal; refusing to migrate a moving target"@,
                )
            }
        },
        (MigrationState::AwaitingReadback(path, rehearsal), MigrationEvent::Migrated(readback)) => {
            if readback.status@ != "current"@ {
                fails_with(
                    next,
                    a,
                    "migration completed but current-schema readback failed: "@ + readback.status@,
                )
            } else if counts_view(readback.table_counts@) != counts_view(rehearsal.table_counts@) {
                fails_with(
                    next,
                    a,
                    "migrated database row-count readback differs from restore rehearsal; backup remains available"@,
                )
            } else {
                &&& next is Done
                &&& a matches MigrationAction::Return(Ok(r)) && same_findings(r, readback)
                    && r.operation@ == "migrate"@ && opt_text(r.backup_path) == Some(path@)
                    && r.restore_rehearsal@ == "passed_before_original_write"@
                    && r.bootstrap_performed && r.message@
                    == "database migrated after backup and restore rehearsal"@
            }
        },
        _ => false,
    }
}

/// Ends the run with an error.
fn fail(error: AppError) -> (r: (MigrationState, MigrationAction))
    ensures
        r.0 is Done,
        r.1 == MigrationAction::Return(Err(error)),
{
    (MigrationState::Done, MigrationAction::Return(Err(error)))
}

/// The outcome of an impossible step.
fn out_of_order() -> (r: (MigrationState, MigrationAction)) {
    (MigrationState::Done, MigrationAction::Return(Err(AppError::internal("migration step out of order"))))
}

/// Given where a migration stands and what was reported for the last action,
/// where it stands next and what to do.
pub fn migrate_step(s: MigrationState, e: MigrationEvent) -> (r: (MigrationState, MigrationAction))
    requires
        migration_fits(s, e),
    ensures
        migration_stepped(s, e, r.0, r.1),
{
    match s {
        MigrationState::Starting => (MigrationState::AwaitingInspection, MigrationAction::Inspect),
        MigrationState::AwaitingInspection => match e {
            MigrationEvent::Inspected(initial) => match migrate_precheck(&initial) {
                Err(error) => fail(error),
                Ok(true) => (
                    MigrationState::Done,
                    MigrationAction::Return(Ok(already_current_report(initial))),
                ),
                Ok(false) => {
                    let version = initial.schema_version;
                    (MigrationState::AwaitingBackup(initial), MigrationAction::CreateBackup(version))
                },
            },
            _ => out_of_order(),
        },
        MigrationState::AwaitingBackup(initial) => match e {
            MigrationEvent::BackedUp(path) => {
                let p = path.clone();
                (MigrationState::AwaitingRehearsal(initial, path), MigrationAction::Rehearse(p))
            },
            _ => out_of_order(),
        },
        MigrationState::AwaitingRehearsal(initial, path) => match e {
            MigrationEvent::Rehearsed(rehearsal) => match check_rehearsal(&rehearsal) {
                Err(error) => fail(error),
                Ok(()) => (
                    MigrationState::AwaitingPreWriteCheck(initial, path, rehearsal),
                    MigrationAction::InspectBeforeWrite,
                ),
            },
            _ => out_of_order(),
        },
        MigrationState::AwaitingPreWriteCheck(initial, path, rehearsal) => match e {
            MigrationEvent::PreWriteInspected(pre) => match check_unchanged(&initial, &pre) {
                Err(error) => fail(error),
                Ok(()) => (
                    MigrationState::AwaitingReadback(path, rehearsal),
                    MigrationAction::WriteOriginal,
                ),
            },
            _ => out_of_order(),
        },
        MigrationState::AwaitingReadback(path, rehearsal) => match e {
            MigrationEvent::Migrated(readback) => match check_migrated(&readback, &rehearsal) {
                Err(error) => fail(error),
                Ok(()) => (
                    MigrationState::Done,
                    MigrationAction::Return(Ok(migrated_report(readback, path))),
                ),
            },
            _ => out_of_order(),
        },
        MigrationState::Done => out_of_order(),
    }
}

/// What holds of every state a migration reaches from its start: once a
/// backup anchor is written, the state carries its path, and once the
/// rehearsal has run, it reached the current schema.
pub open spec fn migration_inv(s: MigrationState) -> bool {
    match s {
        MigrationState::AwaitingPreWriteCheck(_, _, rehearsal) => rehearsal.status@ == "current"@,
        MigrationState::AwaitingReadback(_, rehearsal) => rehearsal.status@ == "current"@,
        _ => true,
    }
}

/// Every step keeps the migration's invariant.
pub proof fn lemma_migration_steps_keep_inv(
    s: MigrationState,
    e: MigrationEvent,
    next: MigrationState,
    a: MigrationAction,
)
    requires
        migration_inv(s),
        migration_stepped(s, e, next, a),
    ensures
        migration_inv(next),
{
}

/// The database itself is written only after a backup anchor was written, a
/// restore rehearsal on a copy of it reached the current schema, and an
/// inspection just before the write found the database as first inspected;
/// the backup's path is carried on to the report.
pub proof fn lemma_original_written_only_after_backup_and_rehearsal(
    s: MigrationState,
    e: MigrationEvent,
    next: MigrationState,
    a: MigrationAction,
)
    requires
        migration_inv(s),
        migration_stepped(s, e, next, a),
        a is WriteOriginal,
    ensures
        s matches MigrationState::AwaitingPreWriteCheck(initial, backup, rehearsal) && {
            &&& rehearsal.status@ == "current"@
            &&& e matches MigrationEvent::PreWriteInspected(pre) && unchanged(initial, pre)
            &&& next == MigrationState::AwaitingReadback(backup, rehearsal)
        },
{
}

/// A backup anchor is asked for only for a database that exists, is not
/// written by a newer store and is not yet current; the path the backup
/// reports is the one the rehearsal copies.
pub proof fn lemma_backup_precedes_rehearsal(
    s0: MigrationState,
    e0: MigrationEvent,
    s1: MigrationState,
    a0: MigrationAction,
    e1: MigrationEvent,
    s2: MigrationState,
    a1: MigrationAction,
)
    requires
        migration_stepped(s0, e0, s1, a0),
        migration_stepped(s1, e1, s2, a1),
        a1 is Rehearse,
    ensures
        a0 is CreateBackup,
        s0 is AwaitingInspection,
        e0 matches MigrationEvent::Inspected(initial) && initial.status@ != "missing"@
            && initial.status@ != "unsupported_newer_schema"@ && initial.status@ != "current"@,
        e1 matches MigrationEvent::BackedUp(path) && a1 matches MigrationAction::Rehearse(p) && p@
            == path@,
{
}

} // verus!
