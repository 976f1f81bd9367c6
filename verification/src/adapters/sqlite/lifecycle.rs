//! What the database lifecycle decides around its I/O: which file a database
//! URL names, how an inspected database is classified, which migrations run,
//! what a migration must leave unchanged, and how the reports of `init` and
//! `migrate` read.
use vstd::prelude::*;

use crate::domain::error::AppError;
use crate::seqs::{contains_text, opt_text, texts};
use crate::text::{
    chars_of, decimal, decimal_i64, decimal_u64, find_char, first_index_of, lemma_first_index_of, owned, same_text,
    seq_starts_with, signed_decimal, str_starts_with, string_of, sub_chars,
};

verus! {

/// The schema version that this store writes and reads.
pub const CURRENT_DATABASE_SCHEMA_VERSION: i64 = 3;

/// A table's name and its number of rows.
#[derive(Debug, Clone, PartialEq, Eq)]
pub struct DatabaseTableCount {
    pub table: String,
    pub rows: i64,
}

/// A table count as a pair of plain values.
pub open spec fn count_view(c: DatabaseTableCount) -> (Seq<char>, i64) {
    (c.table@, c.rows)
}

/// A list of table counts as plain values.
pub open spec fn counts_view(s: Seq<DatabaseTableCount>) -> Seq<(Seq<char>, i64)> {
    s.map_values(|c: DatabaseTableCount| count_view(c))
}

/// What an inspection, `init` or `migrate` found out about a database.
#[derive(Debug, Clone, PartialEq, Eq)]
pub struct DatabaseLifecycleReport {
    pub operation: String,
    pub status: String,
    pub file_backed: bool,
    pub database_exists: bool,
    pub path_writable_hint: Option<bool>,
    pub schema_version: Option<i64>,
    pub target_schema_version: i64,
    pub migration_required: bool,
    pub runtime_defaults_present: bool,
    pub migration_ledger_consistent: bool,
    pub required_tables_present: bool,
    pub foreign_key_violations: usize,
    pub table_counts: Vec<DatabaseTableCount>,
    pub backup_path: Option<String>,
    pub restore_rehearsal: String,
    pub preserved_row_counts: bool,
    pub bootstrap_performed: bool,
    pub message: String,
}

/// The report of a read-only inspection that did not look inside a database:
/// every flag and count at its resting value.
pub open spec fn resting_report(
    r: DatabaseLifecycleReport,
    status: Seq<char>,
    file_backed: bool,
    hint: Option<bool>,
    message: Seq<char>,
) -> bool {
    &&& r.operation@ == "read_only_inspection"@
    &&& r.status@ == status
    &&& r.file_backed == file_backed
    &&& !r.database_exists
    &&& r.path_writable_hint == hint
    &&& r.schema_version is None
    &&& r.target_schema_version == CURRENT_DATABASE_SCHEMA_VERSION
    &&& !r.migration_required
    &&& !r.runtime_defaults_present
    &&& !r.migration_ledger_consistent
    &&& !r.required_tables_present
    &&& r.foreign_key_violations == 0
    &&& r.table_counts@.len() == 0
    &&& r.backup_path is None
    &&& r.restore_rehearsal@ == "not_applicable"@
    &&& r.preserved_row_counts
    &&& !r.bootstrap_performed
    &&& r.message@ == message
}

impl DatabaseLifecycleReport {
    /// Whether the database is ready to serve: its status is `current`.
    pub fn is_current(&self) -> (r: bool)
        ensures
            r == (self.status@ == "current"@),
    {
        same_text(self.status.as_str(), "current")
    }

    /// The report on a file-backed database whose file does not exist.
    pub fn missing(path_writable_hint: Option<bool>) -> (r: Self)
        ensures
            resting_report(
                r,
                "missing"@,
                true,
                path_writable_hint,
                "database file does not exist; run init or doctor --allow-bootstrap"@,
            ),
    {
        DatabaseLifecycleReport {
            operation: owned("read_only_inspection"),
            status: owned("missing"),
            file_backed: true,
            database_exists: false,
            path_writable_hint,
            schema_version: None,
            target_schema_version: CURRENT_DATABASE_SCHEMA_VERSION,
            migration_required: false,
            runtime_defaults_present: false,
            migration_ledger_consistent: false,
            required_tables_present: false,
            foreign_key_violations: 0,
            table_counts: Vec::new(),
            backup_path: None,
            restore_rehearsal: owned("not_applicable"),
            preserved_row_counts: true,
            bootstrap_performed: false,
            message: owned("database file does not exist; run init or doctor --allow-bootstrap"),
        }
    }

    /// The report on a database URL that names no file (an in-memory database,
    /// for one).
    pub fn unsupported_non_file() -> (r: Self)
        ensures
            resting_report(
                r,
                "unsupported_non_file_database"@,
                false,
                None,
                "explicit database lifecycle requires a file-backed sqlite URL"@,
            ),
    {
        DatabaseLifecycleReport {
            operation: owned("read_only_inspection"),
            status: owned("unsupported_non_file_database"),
            file_backed: false,
            database_exists: false,
            path_writable_hint: None,
            schema_version: None,
            target_schema_version: CURRENT_DATABASE_SCHEMA_VERSION,
            migration_required: false,
            runtime_defaults_present: false,
            migration_ledger_consistent: false,
            required_tables_present: false,
            foreign_key_violations: 0,
            table_counts: Vec::new(),
            backup_path: None,
            restore_rehearsal: owned("not_applicable"),
            preserved_row_counts: true,
            bootstrap_performed: false,
            message: owned("explicit database lifecycle requires a file-backed sqlite URL"),
        }
    }
}

/// The file that a `sqlite://` URL names: the text after the scheme, up to a
/// `?` that starts its options. An empty path and `:memory:` name no file.
pub open spec fn sqlite_file_path_of(url: Seq<char>) -> Option<Seq<char>> {
    if !seq_starts_with(url, "sqlite://"@) {
        None
    } else {
        let rest = url.subrange("sqlite://"@.len() as int, url.len() as int);
        let path = match first_index_of(rest, '?') {
            Some(i) => rest.subrange(0, i),
            None => rest,
        };
        if path.len() == 0 || path == ":memory:"@ {
            None
        } else {
            Some(path)
        }
    }
}

/// The file that a database URL names, if it names one.
pub fn sqlite_file_path(database_url: &str) -> (r: Option<String>)
    ensures
        opt_text(r) == sqlite_file_path_of(database_url@),
{
    if !str_starts_with(database_url, "sqlite://") {
        return None;
    }
    proof {
        reveal_strlit("sqlite://");
    }
    let chars = chars_of(database_url);
    let rest = sub_chars(&chars, 9, chars.len());
    let path = match find_char(&rest, '?') {
        Some(i) => {
            proof {
                lemma_first_index_of(rest@, '?', i as int);
            }
            sub_chars(&rest, 0, i)
        },
        None => rest,
    };
    if path.len() == 0 {
        return None;
    }
    let text = string_of(&path);
    if same_text(text.as_str(), ":memory:") {
        return None;
    }
    Some(text)
}

/// `c` is an ASCII letter.
pub open spec fn is_ascii_letter(c: char) -> bool {
    ('a' <= c && c <= 'z') || ('A' <= c && c <= 'Z')
}

/// A Windows path written after `sqlite://` as `/C:...`: without its
/// leading slash. Any other path as it is.
pub open spec fn windows_sqlite_path_of(path: Seq<char>) -> Seq<char> {
    if path.len() >= 3 && path[0] == '/' && is_ascii_letter(path[1]) && path[2] == ':' {
        path.subrange(1, path.len() as int)
    } else {
        path
    }
}

/// The path of a database URL as Windows reads it: a drive path written as
/// `/C:...` loses its leading slash.
pub fn normalize_windows_sqlite_path(path: &str) -> (r: String)
    ensures
        r@ == windows_sqlite_path_of(path@),
{
    let chars = chars_of(path);
    if chars.len() >= 3 && chars[0] == '/' && (('a' <= chars[1] && chars[1] <= 'z') || ('A'
        <= chars[1] && chars[1] <= 'Z')) && chars[2] == ':' {
        let rest = sub_chars(&chars, 1, chars.len());
        string_of(&rest)
    } else {
        string_of(&chars)
    }
}

/// The file that a database URL names, or the error that lifecycle commands
/// give for a URL that names none.
pub fn require_file_path(database_url: &str) -> (r: Result<String, AppError>)
    ensures
        match r {
            Ok(p) => sqlite_file_path_of(database_url@) == Some(p@),
            Err(e) => sqlite_file_path_of(database_url@) is None && e is Message
                && e.message_view()
                == "explicit database lifecycle requires a file-backed sqlite URL"@,
        },
{
    match sqlite_file_path(database_url) {
        Some(p) => Ok(p),
        None => Err(
            AppError::internal("explicit database lifecycle requires a file-backed sqlite URL"),
        ),
    }
}


/// The tables that a current database holds.
pub open spec fn required_table_names() -> Seq<Seq<char>> {
    seq![
        "events"@,
        "claims"@,
        "evidence_links"@,
        "episode_events"@,
        "reflections"@,
        "reflection_trigger_ledger"@,
        "identity_claims"@,
        "commitments"@,
        "operation_log"@,
        "schema_migrations"@,
    ]
}

/// The tables whose rows a migration must keep, row for row.
pub open spec fn preserved_table_names() -> Seq<Seq<char>> {
    seq![
        "events"@,
        "claims"@,
        "evidence_links"@,
        "episode_events"@,
        "reflections"@,
        "reflection_trigger_ledger"@,
        "operation_log"@,
    ]
}

/// The tables that a current database holds, in the order that reports list
/// them.
pub fn required_tables() -> (r: Vec<String>)
    ensures
        texts(r@) == required_table_names(),
{
    let mut r: Vec<String> = Vec::new();
    r.push(owned("events"));
    r.push(owned("claims"));
    r.push(owned("evidence_links"));
    r.push(owned("episode_events"));
    r.push(owned("reflections"));
    r.push(owned("reflection_trigger_ledger"));
    r.push(owned("identity_claims"));
    r.push(owned("commitments"));
    r.push(owned("operation_log"));
    r.push(owned("schema_migrations"));
    assert(texts(r@) =~= required_table_names());
    r
}

/// The tables whose rows a migration must keep, in the order that they are
/// counted.
pub fn preserved_tables() -> (r: Vec<String>)
    ensures
        texts(r@) == preserved_table_names(),
{
    let mut r: Vec<String> = Vec::new();
    r.push(owned("events"));
    r.push(owned("claims"));
    r.push(owned("evidence_links"));
    r.push(owned("episode_events"));
    r.push(owned("reflections"));
    r.push(owned("reflection_trigger_ledger"));
    r.push(owned("operation_log"));
    assert(texts(r@) =~= preserved_table_names());
    r
}

/// Every required table is among `tables`.
pub open spec fn all_required_present(tables: Seq<Seq<char>>) -> bool {
    forall|i: int| 0 <= i < required_table_names().len() ==> tables.contains(
        #[trigger] required_table_names()[i],
    )
}

/// Whether every required table is among the tables that a database holds.
pub fn required_tables_present(table_names: &[String]) -> (r: bool)
    ensures
        r == all_required_present(texts(table_names@)),
{
    let required = required_tables();
    let mut i: usize = 0;
    while i < required.len()
        invariant
            texts(required@) == required_table_names(),
            i <= required@.len(),
            forall|j: int| 0 <= j < i ==> texts(table_names@).contains(
                #[trigger] required_table_names()[j],
            ),
        decreases required@.len() - i,
    {
        if !contains_text(table_names, required[i].as_str()) {
            assert(texts(required@)[i as int] == required[i as int]@);
            return false;
        }
        assert(texts(required@)[i as int] == required[i as int]@);
        i = i + 1;
    }
    true
}

/// The number of rows that the first count of `table` in `counts` gives, if
/// `counts` counts it.
pub open spec fn lookup_count(counts: Seq<(Seq<char>, i64)>, table: Seq<char>) -> Option<i64>
    decreases counts.len(),
{
    if counts.len() == 0 {
        None
    } else if counts[0].0 == table {
        Some(counts[0].1)
    } else {
        lookup_count(counts.subrange(1, counts.len() as int), table)
    }
}

/// The number of rows that `counts` gives for `table`, or 0 where it has
/// none.
pub open spec fn count_in(counts: Seq<(Seq<char>, i64)>, table: Seq<char>) -> i64 {
    match lookup_count(counts, table) {
        Some(n) => n,
        None => 0,
    }
}

/// The number of rows that the first count of `table` in `counts` gives.
pub fn lookup_table_count(counts: &[DatabaseTableCount], table: &str) -> (r: Option<i64>)
    ensures
        r == lookup_count(counts_view(counts@), table@),
{
    let ghost whole = counts_view(counts@);
    assert(whole.subrange(0, whole.len() as int) =~= whole);
    let mut i: usize = 0;
    while i < counts.len()
        invariant
            whole == counts_view(counts@),
            i <= counts@.len(),
            lookup_count(whole, table@) == lookup_count(
                whole.subrange(i as int, whole.len() as int),
                table@,
            ),
        decreases counts@.len() - i,
    {
        let ghost rest = whole.subrange(i as int, whole.len() as int);
        assert(rest.subrange(1, rest.len() as int) =~= whole.subrange(
            i + 1,
            whole.len() as int,
        ));
        if same_text(counts[i].table.as_str(), table) {
            return Some(counts[i].rows);
        }
        i = i + 1;
    }
    None
}

/// The number of rows that `counts` gives for `table` (0 where it has none).
pub fn table_count(counts: &[DatabaseTableCount], table: &str) -> (r: i64)
    ensures
        r == count_in(counts_view(counts@), table@),
{
    match lookup_table_count(counts, table) {
        Some(n) => n,
        None => 0,
    }
}

/// One applied migration as the ledger records it.
#[derive(Debug, Clone, PartialEq, Eq)]
pub struct MigrationRecord {
    pub version: i64,
    pub name: String,
}

/// A ledger record as a pair of plain values.
pub open spec fn record_view(m: MigrationRecord) -> (i64, Seq<char>) {
    (m.version, m.name@)
}

/// Ledger records as plain values.
pub open spec fn records_view(s: Seq<MigrationRecord>) -> Seq<(i64, Seq<char>)> {
    s.map_values(|m: MigrationRecord| record_view(m))
}

/// The schema migrations, numbered from 1 without gaps.
pub open spec fn schema_migration_list() -> Seq<(i64, Seq<char>)> {
    seq![
        (1i64, "initial_schema"@),
        (2i64, "scoped_namespaces"@),
        (3i64, "reflection_audit_columns"@),
    ]
}

/// The schema migrations, in the order that they apply.
pub fn schema_migrations() -> (r: Vec<MigrationRecord>)
    ensures
        records_view(r@) == schema_migration_list(),
{
    let mut r: Vec<MigrationRecord> = Vec::new();
    r.push(MigrationRecord { version: 1, name: owned("initial_schema") });
    r.push(MigrationRecord { version: 2, name: owned("scoped_namespaces") });
    r.push(MigrationRecord { version: 3, name: owned("reflection_audit_columns") });
    assert(records_view(r@) =~= schema_migration_list());
    r
}

/// How many migrations a database at schema `version` has applied: those
/// numbered up to `version`.
pub open spec fn applied_migration_count(version: int) -> int {
    if version <= 0 {
        0
    } else if version >= schema_migration_list().len() {
        schema_migration_list().len() as int
    } else {
        version
    }
}

/// The ledger that a database at schema `version` should hold: the
/// migrations numbered up to `version`, in order.
pub open spec fn expected_ledger(version: int) -> Seq<(i64, Seq<char>)> {
    schema_migration_list().subrange(0, applied_migration_count(version))
}

/// Whether ledger rows, read in version order, are exactly those expected at
/// schema `version`.
pub fn ledger_rows_match(rows: &[MigrationRecord], version: i64) -> (r: bool)
    ensures
        r == (records_view(rows@) == expected_ledger(version as int)),
{
    let migrations = schema_migrations();
    let expected_len: usize = if version <= 0 {
        0
    } else if version >= 3 {
        3
    } else {
        version as usize
    };
    let ghost expected = expected_ledger(version as int);
    assert(expected.len() == expected_len);
    if rows.len() != expected_len {
        assert(records_view(rows@).len() != expected.len());
        return false;
    }
    let mut i: usize = 0;
    while i < rows.len()
        invariant
            records_view(migrations@) == schema_migration_list(),
            expected == expected_ledger(version as int),
            rows@.len() == expected.len(),
            expected.len() <= migrations@.len(),
            i <= rows@.len(),
            forall|j: int| 0 <= j < i ==> #[trigger] records_view(rows@)[j] == expected[j],
        decreases rows@.len() - i,
    {
        assert(records_view(migrations@)[i as int] == expected[i as int]);
        if rows[i].version != migrations[i].version || !same_text(
            rows[i].name.as_str(),
            migrations[i].name.as_str(),
        ) {
            assert(records_view(rows@)[i as int] != expected[i as int]);
            return false;
        }
        assert(records_view(rows@)[i as int] == expected[i as int]);
        i = i + 1;
    }
    assert(records_view(rows@) =~= expected);
    true
}

/// Whether an inspected database's ledger agrees with its schema version: at
/// version 0 there is no ledger table; otherwise the table exists and holds
/// exactly the migrations up to that version.
pub open spec fn ledger_consistent(
    version: int,
    tables: Seq<Seq<char>>,
    rows: Seq<(i64, Seq<char>)>,
) -> bool {
    if version == 0 {
        !tables.contains("schema_migrations"@)
    } else {
        tables.contains("schema_migrations"@) && rows == expected_ledger(version)
    }
}

/// Whether the ledger of an inspected database agrees with its schema
/// version (`rows` are the ledger's rows in version order, read only where
/// the ledger table exists).
pub fn ledger_is_consistent(version: i64, table_names: &[String], rows: &[MigrationRecord]) -> (r:
    bool)
    ensures
        r == ledger_consistent(version as int, texts(table_names@), records_view(rows@)),
{
    let has_ledger = contains_text(table_names, "schema_migrations");
    if version == 0 {
        return !has_ledger;
    }
    if !has_ledger {
        return false;
    }
    ledger_rows_match(rows, version)
}

/// Checks, before and after a migration, that the ledger matches the schema
/// version it is run at; a database at version 0 has nothing to check.
pub fn validate_existing_ledger(
    version: i64,
    ledger_table_exists: bool,
    rows: &[MigrationRecord],
) -> (r: Result<(), AppError>)
    ensures
        r is Ok <==> (version == 0 || (ledger_table_exists && records_view(rows@)
            == expected_ledger(version as int))),
        match r {
            Err(e) => e is Message && e.message_view() == (if !ledger_table_exists {
                "schema version is "@ + signed_decimal(version as int)
                    + " but schema_migrations ledger is missing"@
            } else {
                "schema_migrations ledger is inconsistent with schema version "@ + signed_decimal(
                    version as int,
                )
            }),
            Ok(_) => true,
        },
{
    if version == 0 {
        return Ok(());
    }
    if !ledger_table_exists {
        let mut m = owned("schema version is ");
        m.append(decimal_i64(version).as_str());
        m.append(" but schema_migrations ledger is missing");
        return Err(AppError::Message(m));
    }
    if !ledger_rows_match(rows, version) {
        let mut m = owned("schema_migrations ledger is inconsistent with schema version ");
        m.append(decimal_i64(version).as_str());
        return Err(AppError::Message(m));
    }
    Ok(())
}


/// How an inspected database stands against this store's schema.
#[derive(Debug, Clone, Copy, PartialEq, Eq, Structural)]
pub enum SchemaState {
    /// Written by a newer version of the store.
    UnsupportedNewerSchema,
    /// Ready to serve.
    Current,
    /// The schema is current, but the runtime defaults are not in place.
    BootstrapRequired,
    /// Anything else: an older schema or a damaged one.
    MigrationRequired,
}

/// How a database stands: a schema version newer than this store's is
/// unsupported; at the current version, with every required table, a
/// consistent ledger and no foreign-key violation, it is current when the
/// runtime defaults are present and needs a bootstrap otherwise; anything
/// else needs a migration.
pub open spec fn schema_state(
    version: int,
    tables_present: bool,
    ledger_consistent: bool,
    foreign_key_violations: int,
    runtime_defaults_present: bool,
) -> SchemaState {
    if version > CURRENT_DATABASE_SCHEMA_VERSION {
        SchemaState::UnsupportedNewerSchema
    } else if version == CURRENT_DATABASE_SCHEMA_VERSION && tables_present && ledger_consistent
        && foreign_key_violations == 0 {
        if runtime_defaults_present {
            SchemaState::Current
        } else {
            SchemaState::BootstrapRequired
        }
    } else {
        SchemaState::MigrationRequired
    }
}

/// The status label of a schema state.
pub open spec fn schema_state_label(s: SchemaState) -> Seq<char> {
    match s {
        SchemaState::UnsupportedNewerSchema => "unsupported_newer_schema"@,
        SchemaState::Current => "current"@,
        SchemaState::BootstrapRequired => "bootstrap_required"@,
        SchemaState::MigrationRequired => "migration_required"@,
    }
}

/// The message that explains a schema state, for a database at `version`.
pub open spec fn schema_state_message(s: SchemaState, version: int) -> Seq<char> {
    match s {
        SchemaState::UnsupportedNewerSchema => "database schema version "@ + signed_decimal(version)
            + " is newer than supported version "@ + signed_decimal(
            CURRENT_DATABASE_SCHEMA_VERSION as int,
        ),
        SchemaState::Current => "database schema, migration ledger, foreign keys, and runtime defaults are current"@,
        SchemaState::BootstrapRequired => "schema is current but explicit runtime-default bootstrap is required"@,
        SchemaState::MigrationRequired => "database requires explicit migration from version "@
            + signed_decimal(version) + " to "@ + signed_decimal(
            CURRENT_DATABASE_SCHEMA_VERSION as int,
        ),
    }
}

impl SchemaState {
    /// The status label that reports give this state.
    pub fn label(self) -> (r: &'static str)
        ensures
            r@ == schema_state_label(self),
    {
        match self {
            SchemaState::UnsupportedNewerSchema => "unsupported_newer_schema",
            SchemaState::Current => "current",
            SchemaState::BootstrapRequired => "bootstrap_required",
            SchemaState::MigrationRequired => "migration_required",
        }
    }
}

/// Classifies an inspected database (see `schema_state`).
pub fn classify_schema(
    version: i64,
    tables_present: bool,
    ledger_consistent: bool,
    foreign_key_violations: usize,
    runtime_defaults_present: bool,
) -> (r: SchemaState)
    ensures
        r == schema_state(
            version as int,
            tables_present,
            ledger_consistent,
            foreign_key_violations as int,
            runtime_defaults_present,
        ),
{
    if version > CURRENT_DATABASE_SCHEMA_VERSION {
        SchemaState::UnsupportedNewerSchema
    } else if version == CURRENT_DATABASE_SCHEMA_VERSION && tables_present && ledger_consistent
        && foreign_key_violations == 0 {
        if runtime_defaults_present {
            SchemaState::Current
        } else {
            SchemaState::BootstrapRequired
        }
    } else {
        SchemaState::MigrationRequired
    }
}

/// The message that explains a schema state, for a database at `version`.
pub fn schema_state_message_text(state: SchemaState, version: i64) -> (r: String)
    ensures
        r@ == schema_state_message(state, version as int),
{
    match state {
        SchemaState::UnsupportedNewerSchema => {
            let mut m = owned("database schema version ");
            m.append(decimal_i64(version).as_str());
            m.append(" is newer than supported version ");
            m.append(decimal_i64(CURRENT_DATABASE_SCHEMA_VERSION).as_str());
            m
        },
        SchemaState::Current => owned(
            "database schema, migration ledger, foreign keys, and runtime defaults are current",
        ),
        SchemaState::BootstrapRequired => owned(
            "schema is current but explicit runtime-default bootstrap is required",
        ),
        SchemaState::MigrationRequired => {
            let mut m = owned("database requires explicit migration from version ");
            m.append(decimal_i64(version).as_str());
            m.append(" to ");
            m.append(decimal_i64(CURRENT_DATABASE_SCHEMA_VERSION).as_str());
            m
        },
    }
}

/// The runtime defaults are in place: the identity holds at least one claim,
/// and the commitments table holds the baseline commitment (counted as
/// `baseline_rows` where that table exists).
pub open spec fn runtime_defaults(
    counts: Seq<(Seq<char>, i64)>,
    tables: Seq<Seq<char>>,
    baseline_rows: Option<i64>,
) -> bool {
    &&& count_in(counts, "identity_claims"@) > 0
    &&& tables.contains("commitments"@)
    &&& baseline_rows matches Some(n) && n > 0
}

/// The report of an inspection that looked inside an existing database:
/// `version` is its `user_version`, `table_names` its tables, `ledger_rows`
/// its migration ledger in version order, `table_counts` the rows of each
/// required table that it holds, and `baseline_rows` the number of baseline
/// commitments, counted where the commitments table exists.
pub fn inspection_report(
    operation: &str,
    database_exists: bool,
    path_writable_hint: Option<bool>,
    version: i64,
    table_names: &[String],
    ledger_rows: &[MigrationRecord],
    foreign_key_violations: usize,
    table_counts: Vec<DatabaseTableCount>,
    baseline_rows: Option<i64>,
) -> (r: DatabaseLifecycleReport)
    ensures
        ({
            let tables = texts(table_names@);
            let tables_ok = all_required_present(tables);
            let ledger_ok = ledger_consistent(version as int, tables, records_view(ledger_rows@));
            let defaults = runtime_defaults(counts_view(table_counts@), tables, baseline_rows);
            let state = schema_state(
                version as int,
                tables_ok,
                ledger_ok,
                foreign_key_violations as int,
                defaults,
            );
            &&& r.operation@ == operation@
            &&& r.status@ == schema_state_label(state)
            &&& r.file_backed
            &&& r.database_exists == database_exists
            &&& r.path_writable_hint == path_writable_hint
            &&& r.schema_version == Some(version)
            &&& r.target_schema_version == CURRENT_DATABASE_SCHEMA_VERSION
            &&& r.migration_required == (state == SchemaState::MigrationRequired)
            &&& r.runtime_defaults_present == defaults
            &&& r.migration_ledger_consistent == ledger_ok
            &&& r.required_tables_present == tables_ok
            &&& r.foreign_key_violations == foreign_key_violations
            &&& r.table_counts@ == table_counts@
            &&& r.backup_path is None
            &&& r.restore_rehearsal@ == "not_applicable"@
            &&& r.preserved_row_counts
            &&& !r.bootstrap_performed
            &&& r.message@ == schema_state_message(state, version as int)
        }),
{
    let tables_ok = required_tables_present(table_names);
    let ledger_ok = ledger_is_consistent(version, table_names, ledger_rows);
    let identity_present = table_count(&table_counts, "identity_claims") > 0;
    let baseline_present = contains_text(table_names, "commitments") && match baseline_rows {
        Some(n) => n > 0,
        None => false,
    };
    let defaults = identity_present && baseline_present;
    let state = classify_schema(version, tables_ok, ledger_ok, foreign_key_violations, defaults);
    let message = schema_state_message_text(state, version);
    DatabaseLifecycleReport {
        operation: owned(operation),
        status: owned(state.label()),
        file_backed: true,
        database_exists,
        path_writable_hint,
        schema_version: Some(version),
        target_schema_version: CURRENT_DATABASE_SCHEMA_VERSION,
        migration_required: state == SchemaState::MigrationRequired,
        runtime_defaults_present: defaults,
        migration_ledger_consistent: ledger_ok,
        required_tables_present: tables_ok,
        foreign_key_violations,
        table_counts,
        backup_path: None,
        restore_rehearsal: owned("not_applicable"),
        preserved_row_counts: true,
        bootstrap_performed: false,
        message,
    }
}


/// Refuses to migrate a database written by a newer version of the store.
pub fn check_supported_version(version: i64) -> (r: Result<(), AppError>)
    ensures
        r is Ok <==> version <= CURRENT_DATABASE_SCHEMA_VERSION,
        match r {
            Err(e) => e is Message && e.message_view() == schema_state_message(
                SchemaState::UnsupportedNewerSchema,
                version as int,
            ),
            Ok(_) => true,
        },
{
    if version > CURRENT_DATABASE_SCHEMA_VERSION {
        return Err(
            AppError::Message(
                schema_state_message_text(SchemaState::UnsupportedNewerSchema, version),
            ),
        );
    }
    Ok(())
}

/// The migrations that a database at schema `from_version` has yet to apply,
/// in order.
pub open spec fn pending_migration_list(from_version: int) -> Seq<(i64, Seq<char>)> {
    schema_migration_list().subrange(
        applied_migration_count(from_version),
        schema_migration_list().len() as int,
    )
}

/// The migrations that a database at schema `from_version` has yet to apply:
/// those numbered above it, in order.
pub fn pending_migrations(from_version: i64) -> (r: Vec<MigrationRecord>)
    ensures
        records_view(r@) == pending_migration_list(from_version as int),
        forall|i: int| 0 <= i < r@.len() ==> #[trigger] r@[i].version > from_version,
{
    let all = schema_migrations();
    let mut r: Vec<MigrationRecord> = Vec::new();
    let start: usize = if from_version <= 0 {
        0
    } else if from_version >= 3 {
        3
    } else {
        from_version as usize
    };
    let mut i: usize = start;
    while i < all.len()
        invariant
            records_view(all@) == schema_migration_list(),
            start == applied_migration_count(from_version as int),
            start <= i <= all@.len(),
            records_view(r@) == schema_migration_list().subrange(start as int, i as int),
            forall|j: int| 0 <= j < r@.len() ==> #[trigger] r@[j].version > from_version,
        decreases all@.len() - i,
    {
        assert(records_view(all@)[i as int] == schema_migration_list()[i as int]);
        let rec = MigrationRecord { version: all[i].version, name: all[i].name.clone() };
        let ghost old_r = r@;
        r.push(rec);
        assert(records_view(r@) =~= records_view(old_r).push(record_view(rec)));
        i = i + 1;
        assert(records_view(r@) =~= schema_migration_list().subrange(start as int, i as int));
    }
    r
}

/// The work that one migration does.
#[derive(Debug, Clone, Copy, PartialEq, Eq, Structural)]
pub enum MigrationStep {
    /// Creates the tables of the initial schema.
    CreateInitialSchema,
    /// Gives events and claims a namespace column with its scope check.
    AddNamespaceColumns,
    /// Gives reflections their audit columns.
    AddReflectionAuditColumns,
}

/// The work of migration `version`, or the error for a version that has no
/// implementation.
pub fn migration_step(version: i64) -> (r: Result<MigrationStep, AppError>)
    ensures
        version == 1 ==> r == Ok::<MigrationStep, AppError>(MigrationStep::CreateInitialSchema),
        version == 2 ==> r == Ok::<MigrationStep, AppError>(MigrationStep::AddNamespaceColumns),
        version == 3 ==> r == Ok::<MigrationStep, AppError>(
            MigrationStep::AddReflectionAuditColumns,
        ),
        r is Err <==> !(1 <= version <= 3),
        match r {
            Err(e) => e is Message && e.message_view() == "missing migration implementation for version "@
                + signed_decimal(version as int),
            Ok(_) => true,
        },
{
    if version == 1 {
        Ok(MigrationStep::CreateInitialSchema)
    } else if version == 2 {
        Ok(MigrationStep::AddNamespaceColumns)
    } else if version == 3 {
        Ok(MigrationStep::AddReflectionAuditColumns)
    } else {
        let mut m = owned("missing migration implementation for version ");
        m.append(decimal_i64(version).as_str());
        Err(AppError::Message(m))
    }
}

/// The statement that records schema `version` in the database header.
pub fn user_version_statement(version: i64) -> (r: String)
    ensures
        r@ == "PRAGMA user_version = "@ + signed_decimal(version as int),
{
    let mut m = owned("PRAGMA user_version = ");
    m.append(decimal_i64(version).as_str());
    m
}

/// Rolls a migration back when `PRAGMA foreign_key_check` found violations.
pub fn check_foreign_keys(violations: usize) -> (r: Result<(), AppError>)
    ensures
        r is Ok <==> violations == 0,
        match r {
            Err(e) => e is Message && e.message_view() == "foreign_key_check found "@ + decimal(
                violations as nat,
            ) + " violation(s); migration rolled back"@,
            Ok(_) => true,
        },
{
    if violations != 0 {
        let mut m = owned("foreign_key_check found ");
        m.append(decimal_u64(violations as u64).as_str());
        m.append(" violation(s); migration rolled back");
        return Err(AppError::Message(m));
    }
    Ok(())
}

/// The first way in which the counts after a migration fail to keep those
/// from before it, as the message that reports it; `None` where every table
/// counted before is counted after with the same number of rows.
pub open spec fn preserved_count_failure(
    before: Seq<(Seq<char>, i64)>,
    after: Seq<(Seq<char>, i64)>,
) -> Option<Seq<char>>
    decreases before.len(),
{
    if before.len() == 0 {
        None
    } else {
        let table = before[0].0;
        let rows = before[0].1;
        match lookup_count(after, table) {
            None => Some("preserved table disappeared during migration: "@ + table),
            Some(n) => if n != rows {
                Some(
                    "row count changed during migration for "@ + table + ": "@ + signed_decimal(
                        rows as int,
                    ) + " -> "@ + signed_decimal(n as int),
                )
            } else {
                preserved_count_failure(before.subrange(1, before.len() as int), after)
            },
        }
    }
}

/// Every table counted before a migration is counted after it with the same
/// number of rows.
pub open spec fn counts_preserved(
    before: Seq<(Seq<char>, i64)>,
    after: Seq<(Seq<char>, i64)>,
) -> bool {
    forall|i: int|
        0 <= i < before.len() ==> lookup_count(after, #[trigger] before[i].0) == Some(
            before[i].1,
        )
}

/// `preserved_count_failure` finds no failure exactly where the counts are
/// preserved.
pub proof fn lemma_preserved_count_failure(
    before: Seq<(Seq<char>, i64)>,
    after: Seq<(Seq<char>, i64)>,
)
    ensures
        preserved_count_failure(before, after) is None <==> counts_preserved(before, after),
    decreases before.len(),
{
    if before.len() > 0 {
        let rest = before.subrange(1, before.len() as int);
        lemma_preserved_count_failure(rest, after);
        if counts_preserved(before, after) {
            assert forall|i: int| 0 <= i < rest.len() implies lookup_count(
                after,
                #[trigger] rest[i].0,
            ) == Some(rest[i].1) by {
                assert(rest[i] == before[i + 1]);
            }
            assert(lookup_count(after, before[0].0) == Some(before[0].1));
        }
        if preserved_count_failure(before, after) is None {
            assert forall|i: int| 0 <= i < before.len() implies lookup_count(
                after,
                #[trigger] before[i].0,
            ) == Some(before[i].1) by {
                if i > 0 {
                    assert(before[i] == rest[i - 1]);
                }
            }
        }
    }
}

/// Checks that a migration kept the rows of every preserved table that it
/// found: each table counted before is counted after, with the same number of
/// rows.
pub fn validate_preserved_counts(
    before: &[DatabaseTableCount],
    after: &[DatabaseTableCount],
) -> (r: Result<(), AppError>)
    ensures
        r is Ok <==> counts_preserved(counts_view(before@), counts_view(after@)),
        match r {
            Err(e) => e is Message && Some(e.message_view()) == preserved_count_failure(
                counts_view(before@),
                counts_view(after@),
            ),
            Ok(_) => true,
        },
{
    let ghost b = counts_view(before@);
    let ghost a = counts_view(after@);
    proof {
        lemma_preserved_count_failure(b, a);
        assert(b.subrange(0, b.len() as int) =~= b);
    }
    let mut i: usize = 0;
    while i < before.len()
        invariant
            b == counts_view(before@),
            a == counts_view(after@),
            i <= before@.len(),
            preserved_count_failure(b, a) == preserved_count_failure(
                b.subrange(i as int, b.len() as int),
                a,
            ),
        decreases before@.len() - i,
    {
        let ghost rest = b.subrange(i as int, b.len() as int);
        assert(rest.subrange(1, rest.len() as int) =~= b.subrange(i + 1, b.len() as int));
        assert(rest[0] == count_view(before@[i as int]));
        match lookup_table_count(after, before[i].table.as_str()) {
            None => {
                let mut m = owned("preserved table disappeared during migration: ");
                m.append(before[i].table.as_str());
                return Err(AppError::Message(m));
            },
            Some(n) => {
                if n != before[i].rows {
                    let mut m = owned("row count changed during migration for ");
                    m.append(before[i].table.as_str());
                    m.append(": ");
                    m.append(decimal_i64(before[i].rows).as_str());
                    m.append(" -> ");
                    m.append(decimal_i64(n).as_str());
                    return Err(AppError::Message(m));
                }
            },
        }
        i = i + 1;
    }
    Ok(())
}


/// Two reports agree on everything an inspection finds: all but the
/// operation, the backup path, the restore rehearsal, whether a bootstrap was
/// performed, and the message.
pub open spec fn same_findings(a: DatabaseLifecycleReport, b: DatabaseLifecycleReport) -> bool {
    &&& a.status == b.status
    &&& a.file_backed == b.file_backed
    &&& a.database_exists == b.database_exists
    &&& a.path_writable_hint == b.path_writable_hint
    &&& a.schema_version == b.schema_version
    &&& a.target_schema_version == b.target_schema_version
    &&& a.migration_required == b.migration_required
    &&& a.runtime_defaults_present == b.runtime_defaults_present
    &&& a.migration_ledger_consistent == b.migration_ledger_consistent
    &&& a.required_tables_present == b.required_tables_present
    &&& a.foreign_key_violations == b.foreign_key_violations
    &&& a.table_counts == b.table_counts
    &&& a.preserved_row_counts == b.preserved_row_counts
}

/// The report of `init`, from the readback of the database it created: a
/// database that did not come out current is an error.
pub fn initialized_report(readback: DatabaseLifecycleReport) -> (r: Result<
    DatabaseLifecycleReport,
    AppError,
>)
    ensures
        r is Ok <==> readback.status@ == "current"@,
        match r {
            Ok(report) => {
                &&& same_findings(report, readback)
                &&& report.operation@ == "init"@
                &&& report.backup_path == readback.backup_path
                &&& report.bootstrap_performed
                &&& report.restore_rehearsal@ == "not_applicable_new_database"@
                &&& report.message@ == "database initialized with current schema and runtime defaults"@
            },
            Err(e) => e is Message && e.message_view()
                == "initialized database did not pass current-schema readback: "@
                + readback.status@,
        },
{
    if !readback.is_current() {
        let mut m = owned("initialized database did not pass current-schema readback: ");
        m.append(readback.status.as_str());
        return Err(AppError::Message(m));
    }
    let mut report = readback;
    report.operation = owned("init");
    report.bootstrap_performed = true;
    report.restore_rehearsal = owned("not_applicable_new_database");
    report.message = owned("database initialized with current schema and runtime defaults");
    Ok(report)
}

/// The error that `init` gives for a database file that already exists.
pub fn init_refusal(path: &str) -> (r: AppError)
    ensures
        r is Message,
        r.message_view() == "init refuses to overwrite existing sqlite database: "@ + path@,
{
    let mut m = owned("init refuses to overwrite existing sqlite database: ");
    m.append(path);
    AppError::Message(m)
}

/// What `migrate` makes of its first inspection: a missing database and one
/// written by a newer store are errors (the latter with the inspection's own
/// message); otherwise whether the database is already current.
pub fn migrate_precheck(initial: &DatabaseLifecycleReport) -> (r: Result<bool, AppError>)
    ensures
        initial.status@ == "missing"@ ==> (r matches Err(e) && e is Message && e.message_view()
            == "migrate requires an existing database; run init first"@),
        initial.status@ == "unsupported_newer_schema"@ ==> (r matches Err(e) && e is Message
            && e.message_view() == initial.message@),
        initial.status@ != "missing"@ && initial.status@ != "unsupported_newer_schema"@ ==> r
            == Ok::<bool, AppError>(initial.status@ == "current"@),
{
    proof {
        reveal_strlit("missing");
        reveal_strlit("unsupported_newer_schema");
        reveal_strlit("current");
        assert("missing"@.len() != "unsupported_newer_schema"@.len());
    }
    if same_text(initial.status.as_str(), "missing") {
        return Err(AppError::internal("migrate requires an existing database; run init first"));
    }
    if same_text(initial.status.as_str(), "unsupported_newer_schema") {
        return Err(AppError::Message(initial.message.clone()));
    }
    Ok(initial.is_current())
}

/// The report of `migrate` on a database that is already current.
pub fn already_current_report(initial: DatabaseLifecycleReport) -> (r: DatabaseLifecycleReport)
    ensures
        same_findings(r, initial),
        r.operation@ == "migrate"@,
        r.backup_path == initial.backup_path,
        r.bootstrap_performed == initial.bootstrap_performed,
        r.restore_rehearsal@ == "not_needed_current"@,
        r.message@ == "database already uses the current schema"@,
{
    let mut report = initial;
    report.operation = owned("migrate");
    report.restore_rehearsal = owned("not_needed_current");
    report.message = owned("database already uses the current schema");
    report
}

/// The restore rehearsal of a migration must reach the current schema.
pub fn check_rehearsal(rehearsal: &DatabaseLifecycleReport) -> (r: Result<(), AppError>)
    ensures
        r is Ok <==> rehearsal.status@ == "current"@,
        match r {
            Err(e) => e is Message && e.message_view()
                == "restore rehearsal did not reach current schema: "@ + rehearsal.status@,
            Ok(_) => true,
        },
{
    if !rehearsal.is_current() {
        let mut m = owned("restore rehearsal did not reach current schema: ");
        m.append(rehearsal.status.as_str());
        return Err(AppError::Message(m));
    }
    Ok(())
}

/// Whether two lists of table counts are the same, table for table.
pub fn same_counts(a: &[DatabaseTableCount], b: &[DatabaseTableCount]) -> (r: bool)
    ensures
        r == (counts_view(a@) == counts_view(b@)),
{
    if a.len() != b.len() {
        assert(counts_view(a@).len() != counts_view(b@).len());
        return false;
    }
    let mut i: usize = 0;
    while i < a.len()
        invariant
            a@.len() == b@.len(),
            i <= a@.len(),
            forall|j: int| 0 <= j < i ==> #[trigger] counts_view(a@)[j] == counts_view(b@)[j],
        decreases a@.len() - i,
    {
        if a[i].rows != b[i].rows || !same_text(a[i].table.as_str(), b[i].table.as_str()) {
            assert(counts_view(a@)[i as int] != counts_view(b@)[i as int]);
            return false;
        }
        assert(counts_view(a@)[i as int] == counts_view(b@)[i as int]);
        i = i + 1;
    }
    assert(counts_view(a@) =~= counts_view(b@));
    true
}

/// A database must not change between its backup rehearsal and the
/// migration itself: the schema version and the table counts read back just
/// before the write must equal those of the first inspection.
pub fn check_unchanged(
    initial: &DatabaseLifecycleReport,
    readback: &DatabaseLifecycleReport,
) -> (r: Result<(), AppError>)
    ensures
        r is Ok <==> (initial.schema_version == readback.schema_version && counts_view(
            initial.table_counts@,
        ) == counts_view(readback.table_counts@)),
        match r {
            Err(e) => e is Message && e.message_view()
                == "database changed after backup rehearsal; refusing to migrate a moving target"@,
            Ok(_) => true,
        },
{
    if initial.schema_version != readback.schema_version || !same_counts(
        &initial.table_counts,
        &readback.table_counts,
    ) {
        return Err(
            AppError::internal(
                "database changed after backup rehearsal; refusing to migrate a moving target",
            ),
        );
    }
    Ok(())
}

/// After a migration the database must read back as current, with the same
/// table counts as its restore rehearsal.
pub fn check_migrated(
    readback: &DatabaseLifecycleReport,
    rehearsal: &DatabaseLifecycleReport,
) -> (r: Result<(), AppError>)
    ensures
        r is Ok <==> (readback.status@ == "current"@ && counts_view(readback.table_counts@)
            == counts_view(rehearsal.table_counts@)),
        match r {
            Err(e) => e is Message && e.message_view() == (if readback.status@ != "current"@ {
                "migration completed but current-schema readback failed: "@ + readback.status@
            } else {
                "migrated database row-count readback differs from restore rehearsal; backup remains available"@
            }),
            Ok(_) => true,
        },
{
    if !readback.is_current() {
        let mut m = owned("migration completed but current-schema readback failed: ");
        m.append(readback.status.as_str());
        return Err(AppError::Message(m));
    }
    if !same_counts(&readback.table_counts, &rehearsal.table_counts) {
        return Err(
            AppError::internal(
                "migrated database row-count readback differs from restore rehearsal; backup remains available",
            ),
        );
    }
    Ok(())
}

/// The report of a completed migration, from its readback and the backup it
/// left.
pub fn migrated_report(readback: DatabaseLifecycleReport, backup_path: String) -> (r:
    DatabaseLifecycleReport)
    ensures
        same_findings(r, readback),
        r.operation@ == "migrate"@,
        opt_text(r.backup_path) == Some(backup_path@),
        r.restore_rehearsal@ == "passed_before_original_write"@,
        r.bootstrap_performed,
        r.message@ == "database migrated after backup and restore rehearsal"@,
{
    let mut report = readback;
    report.operation = owned("migrate");
    report.backup_path = Some(backup_path);
    report.restore_rehearsal = owned("passed_before_original_write");
    report.bootstrap_performed = true;
    report.message = owned("database migrated after backup and restore rehearsal");
    report
}

/// What opening a store with bootstrap does first.
#[derive(Debug, Clone, Copy, PartialEq, Eq, Structural)]
pub enum BootstrapAction {
    /// Creates the database.
    Initialize,
    /// Opens it as it is.
    OpenAsIs,
    /// Migrates it.
    Migrate,
}

/// The bootstrap action for an inspected database: a missing one is created,
/// a current one opened as it is, any other migrated.
pub fn bootstrap_action(report: &DatabaseLifecycleReport) -> (r: BootstrapAction)
    ensures
        r == (if report.status@ == "missing"@ {
            BootstrapAction::Initialize
        } else if report.status@ == "current"@ {
            BootstrapAction::OpenAsIs
        } else {
            BootstrapAction::Migrate
        }),
{
    if same_text(report.status.as_str(), "missing") {
        BootstrapAction::Initialize
    } else if report.is_current() {
        BootstrapAction::OpenAsIs
    } else {
        BootstrapAction::Migrate
    }
}

/// Only a current database can serve.
pub fn serve_readiness(report: &DatabaseLifecycleReport) -> (r: Result<(), AppError>)
    ensures
        r is Ok <==> report.status@ == "current"@,
        match r {
            Err(e) => e is Message && e.message_view() == "database is not ready for serve: "@
                + report.status@ + "; run init, migrate, or doctor --allow-bootstrap"@,
            Ok(_) => true,
        },
{
    if !report.is_current() {
        let mut m = owned("database is not ready for serve: ");
        m.append(report.status.as_str());
        m.append("; run init, migrate, or doctor --allow-bootstrap");
        return Err(AppError::Message(m));
    }
    Ok(())
}

/// The file name of the backup that a migration takes first: the database's
/// own file name, the versions it migrates between, and when.
pub fn backup_file_name(file_name: &str, from_version: Option<i64>, timestamp: &str) -> (r:
    String)
    ensures
        r@ == file_name@ + ".pre-migrate-v"@ + signed_decimal(
            match from_version {
                Some(v) => v as int,
                None => 0,
            },
        ) + "-to-v"@ + signed_decimal(CURRENT_DATABASE_SCHEMA_VERSION as int) + "-"@
            + timestamp@ + ".bak"@,
{
    let from: i64 = match from_version {
        Some(v) => v,
        None => 0,
    };
    let mut m = owned(file_name);
    m.append(".pre-migrate-v");
    m.append(decimal_i64(from).as_str());
    m.append("-to-v");
    m.append(decimal_i64(CURRENT_DATABASE_SCHEMA_VERSION).as_str());
    m.append("-");
    m.append(timestamp);
    m.append(".bak");
    m
}

/// `s` with every `from` replaced by `to`.
pub open spec fn replace_char(s: Seq<char>, from: char, to: char) -> Seq<char> {
    s.map_values(|c: char| if c == from { to } else { c })
}

/// `s` with every `'` doubled, as SQL quotes a text literal.
pub open spec fn sql_quoted(s: Seq<char>) -> Seq<char>
    decreases s.len(),
{
    if s.len() == 0 {
        s
    } else {
        let rest = sql_quoted(s.drop_last());
        if s.last() == '\'' {
            rest.push('\'').push('\'')
        } else {
            rest.push(s.last())
        }
    }
}

/// The URL of the database file at `path`, with `\` written as `/`.
pub fn sqlite_url(path: &str) -> (r: String)
    ensures
        r@ == "sqlite://"@ + replace_char(path@, '\\', '/'),
{
    let chars = chars_of(path);
    let mut out: Vec<char> = Vec::new();
    let mut i: usize = 0;
    while i < chars.len()
        invariant
            chars@ == path@,
            i <= chars@.len(),
            out@ == replace_char(chars@.subrange(0, i as int), '\\', '/'),
        decreases chars@.len() - i,
    {
        let c = chars[i];
        out.push(if c == '\\' { '/' } else { c });
        i = i + 1;
        assert(out@ =~= replace_char(chars@.subrange(0, i as int), '\\', '/'));
    }
    assert(chars@.subrange(0, chars@.len() as int) =~= chars@);
    let mut r = owned("sqlite://");
    r.append(string_of(&out).as_str());
    r
}

/// The statement that writes a backup copy of the open database to `path`.
pub fn vacuum_into_statement(path: &str) -> (r: String)
    ensures
        r@ == "VACUUM INTO '"@ + sql_quoted(path@) + "'"@,
{
    let chars = chars_of(path);
    let mut out: Vec<char> = Vec::new();
    let mut i: usize = 0;
    while i < chars.len()
        invariant
            chars@ == path@,
            i <= chars@.len(),
            out@ == sql_quoted(chars@.subrange(0, i as int)),
        decreases chars@.len() - i,
    {
        let c = chars[i];
        assert(chars@.subrange(0, i + 1).drop_last() =~= chars@.subrange(0, i as int));
        if c == '\'' {
            out.push('\'');
            out.push('\'');
        } else {
            out.push(c);
        }
        i = i + 1;
    }
    assert(chars@.subrange(0, chars@.len() as int) =~= chars@);
    let mut r = owned("VACUUM INTO '");
    r.append(string_of(&out).as_str());
    r.append("'");
    r
}

/// The files that a SQLite database at `path` may leave: the database itself
/// and its write-ahead log and shared-memory files.
pub fn sqlite_files(path: &str) -> (r: Vec<String>)
    ensures
        texts(r@) == seq![path@, path@ + "-wal"@, path@ + "-shm"@],
{
    let mut r: Vec<String> = Vec::new();
    r.push(owned(path));
    let mut wal = owned(path);
    wal.append("-wal");
    r.push(wal);
    let mut shm = owned(path);
    shm.append("-shm");
    r.push(shm);
    assert(texts(r@) =~= seq![path@, path@ + "-wal"@, path@ + "-shm"@]);
    r
}

} // verus!
