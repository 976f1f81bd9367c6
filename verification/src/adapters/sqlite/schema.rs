//! The SQL text of the store's schema, and how a script of it splits into
//! statements.
use vstd::prelude::*;

use crate::seqs::texts;
use crate::text::{all_white_space, chars_of, is_blank, owned, string_of};

verus! {

/// The name of the check that ties a row's namespace to its owner.
pub const OWNER_NAMESPACE_SCOPE_CONSTRAINT_NAME: &'static str = "owner_namespace_scope";

/// The events table.
pub const EVENTS_TABLE_SQL: &'static str = r#"
CREATE TABLE IF NOT EXISTS events (
    event_id TEXT PRIMARY KEY,
    recorded_at TEXT NOT NULL,
    owner TEXT NOT NULL,
    kind TEXT NOT NULL,
    summary TEXT NOT NULL
)"#;

/// The check that ties a row's namespace to its owner: the self owner writes
/// to `self`, a user to `user/...`, the world and unknown owners to `world`
/// or `project/...`.
pub const OWNER_NAMESPACE_SCOPE_CONSTRAINT_SQL: &'static str = r#"    CONSTRAINT owner_namespace_scope CHECK (
        (owner = 'self' AND namespace = 'self')
        OR (owner = 'user' AND namespace LIKE 'user/%')
        OR (owner = 'world' AND (namespace = 'world' OR namespace LIKE 'project/%'))
        OR (owner = 'unknown' AND (namespace = 'world' OR namespace LIKE 'project/%'))
    )"#;

/// The links from claims to the events that support them.
pub const EVIDENCE_LINKS_TABLE_SQL: &'static str = r#"
CREATE TABLE IF NOT EXISTS evidence_links (
    claim_id TEXT NOT NULL,
    event_id TEXT NOT NULL,
    PRIMARY KEY (claim_id, event_id),
    FOREIGN KEY (claim_id) REFERENCES claims(claim_id),
    FOREIGN KEY (event_id) REFERENCES events(event_id)
)"#;

/// The events of each episode.
pub const EPISODE_EVENTS_TABLE_SQL: &'static str = r#"
CREATE TABLE IF NOT EXISTS episode_events (
    episode_reference TEXT NOT NULL,
    event_id TEXT NOT NULL,
    PRIMARY KEY (episode_reference, event_id),
    FOREIGN KEY (event_id) REFERENCES events(event_id)
)"#;

/// The reflections, with the claims that they superseded and introduced.
pub const REFLECTIONS_TABLE_SQL: &'static str = r#"
CREATE TABLE IF NOT EXISTS reflections (
    reflection_id TEXT PRIMARY KEY,
    recorded_at TEXT NOT NULL,
    summary TEXT NOT NULL,
    superseded_claim_id TEXT,
    replacement_claim_id TEXT
)"#;

/// The identity's claims, in order.
pub const IDENTITY_CLAIMS_TABLE_SQL: &'static str = r#"
CREATE TABLE IF NOT EXISTS identity_claims (
    position INTEGER NOT NULL PRIMARY KEY,
    claim TEXT NOT NULL
)"#;

/// The commitments.
pub const COMMITMENTS_TABLE_SQL: &'static str = r#"
CREATE TABLE IF NOT EXISTS commitments (
    description TEXT PRIMARY KEY,
    owner TEXT NOT NULL
)"#;

/// The claims table up to the words `CREATE TABLE`.
pub const CLAIMS_TABLE_HEAD_SQL: &'static str = "\nCREATE TABLE";

/// The name and columns of the claims table.
pub const CLAIMS_TABLE_COLUMNS_SQL: &'static str = r#" claims (
    claim_id TEXT PRIMARY KEY,
    owner TEXT NOT NULL,
    namespace TEXT NOT NULL,
    subject TEXT NOT NULL,
    predicate TEXT NOT NULL,
    object TEXT NOT NULL,
    mode TEXT NOT NULL,
    status TEXT NOT NULL,
"#;

/// The namespace that a legacy claim row gets: its own where it has a
/// non-empty one, else the default namespace of its owner.
pub const LEGACY_NAMESPACE_BACKFILL_WITH_NAMESPACE_SQL: &'static str =
    "COALESCE(NULLIF(namespace, ''), CASE owner WHEN 'self' THEN 'self' WHEN 'user' THEN 'user/default' ELSE 'world' END)";

/// The namespace that a legacy row without a namespace column gets: the
/// default namespace of its owner.
pub const LEGACY_NAMESPACE_BACKFILL_WITHOUT_NAMESPACE_SQL: &'static str =
    "CASE owner WHEN 'self' THEN 'self' WHEN 'user' THEN 'user/default' ELSE 'world' END";

/// The statement that creates the claims table, with `IF NOT EXISTS` where
/// asked for.
pub open spec fn claims_table_sql_text(include_if_not_exists: bool) -> Seq<char> {
    CLAIMS_TABLE_HEAD_SQL@ + (if include_if_not_exists {
        " IF NOT EXISTS"@
    } else {
        ""@
    }) + CLAIMS_TABLE_COLUMNS_SQL@ + OWNER_NAMESPACE_SCOPE_CONSTRAINT_SQL@ + "\n)"@
}

/// The statement that creates the claims table, with its owner-namespace
/// check.
pub fn claims_table_sql(include_if_not_exists: bool) -> (r: String)
    ensures
        r@ == claims_table_sql_text(include_if_not_exists),
{
    let mut r = owned(CLAIMS_TABLE_HEAD_SQL);
    if include_if_not_exists {
        r.append(" IF NOT EXISTS");
    } else {
        r.append("");
        proof {
            reveal_strlit("");
        }
    }
    r.append(CLAIMS_TABLE_COLUMNS_SQL);
    r.append(OWNER_NAMESPACE_SCOPE_CONSTRAINT_SQL);
    r.append("\n)");
    r
}

/// The columns of the events table with its namespace, after its name.
pub const EVENTS_TABLE_COLUMNS_SQL: &'static str = r#" events (
    event_id TEXT PRIMARY KEY,
    recorded_at TEXT NOT NULL,
    owner TEXT NOT NULL,
    namespace TEXT NOT NULL,
    kind TEXT NOT NULL,
    summary TEXT NOT NULL,
"#;

/// The statement that creates the events table with its namespace column
/// and the owner-namespace check, with `IF NOT EXISTS` where asked for.
pub open spec fn events_table_sql_text(include_if_not_exists: bool) -> Seq<char> {
    CLAIMS_TABLE_HEAD_SQL@ + (if include_if_not_exists {
        " IF NOT EXISTS"@
    } else {
        ""@
    }) + EVENTS_TABLE_COLUMNS_SQL@ + OWNER_NAMESPACE_SCOPE_CONSTRAINT_SQL@ + "\n)"@
}

/// The statement that creates the events table with its namespace column
/// and the owner-namespace check.
pub fn events_table_sql(include_if_not_exists: bool) -> (r: String)
    ensures
        r@ == events_table_sql_text(include_if_not_exists),
{
    let mut r = owned(CLAIMS_TABLE_HEAD_SQL);
    if include_if_not_exists {
        r.append(" IF NOT EXISTS");
    } else {
        r.append("");
        proof {
            reveal_strlit("");
        }
    }
    r.append(EVENTS_TABLE_COLUMNS_SQL);
    r.append(OWNER_NAMESPACE_SCOPE_CONSTRAINT_SQL);
    r.append("\n)");
    r
}

/// The script that creates the initial schema: each table's statement,
/// followed by `;`, separated by blank lines.
pub open spec fn init_sql_text() -> Seq<char> {
    "\n"@ + EVENTS_TABLE_SQL@ + ";\n\n"@ + claims_table_sql_text(true) + ";\n\n"@
        + EVIDENCE_LINKS_TABLE_SQL@ + ";\n\n"@ + EPISODE_EVENTS_TABLE_SQL@ + ";\n\n"@
        + REFLECTIONS_TABLE_SQL@ + ";\n\n"@ + IDENTITY_CLAIMS_TABLE_SQL@ + ";\n\n"@
        + COMMITMENTS_TABLE_SQL@ + ";\n"@
}

/// The script that creates the initial schema.
pub fn init_sql() -> (r: String)
    ensures
        r@ == init_sql_text(),
{
    let mut r = owned("\n");
    r.append(EVENTS_TABLE_SQL);
    r.append(";\n\n");
    r.append(claims_table_sql(true).as_str());
    r.append(";\n\n");
    r.append(EVIDENCE_LINKS_TABLE_SQL);
    r.append(";\n\n");
    r.append(EPISODE_EVENTS_TABLE_SQL);
    r.append(";\n\n");
    r.append(REFLECTIONS_TABLE_SQL);
    r.append(";\n\n");
    r.append(IDENTITY_CLAIMS_TABLE_SQL);
    r.append(";\n\n");
    r.append(COMMITMENTS_TABLE_SQL);
    r.append(";\n");
    r
}

/// The namespace expression that backfills legacy claim rows, for a legacy
/// table with or without a namespace column.
pub fn legacy_namespace_backfill_expression(legacy_table_has_namespace: bool) -> (r:
    &'static str)
    ensures
        r@ == (if legacy_table_has_namespace {
            LEGACY_NAMESPACE_BACKFILL_WITH_NAMESPACE_SQL@
        } else {
            LEGACY_NAMESPACE_BACKFILL_WITHOUT_NAMESPACE_SQL@
        }),
{
    if legacy_table_has_namespace {
        LEGACY_NAMESPACE_BACKFILL_WITH_NAMESPACE_SQL
    } else {
        LEGACY_NAMESPACE_BACKFILL_WITHOUT_NAMESPACE_SQL
    }
}

/// The pieces of `s` between occurrences of `sep`, as `str::split` gives
/// them: always at least one, the last after the final separator.
pub open spec fn split_on(s: Seq<char>, sep: char) -> Seq<Seq<char>>
    decreases s.len(),
{
    if s.len() == 0 {
        seq![Seq::<char>::empty()]
    } else {
        let pieces = split_on(s.drop_last(), sep);
        if s.last() == sep {
            pieces.push(Seq::<char>::empty())
        } else {
            pieces.update(pieces.len() - 1, pieces.last().push(s.last()))
        }
    }
}

/// `split_on` gives at least one piece.
pub proof fn lemma_split_on_nonempty(s: Seq<char>, sep: char)
    ensures
        split_on(s, sep).len() >= 1,
    decreases s.len(),
{
    if s.len() > 0 {
        lemma_split_on_nonempty(s.drop_last(), sep);
    }
}

/// The pieces that hold something besides white space, in order.
pub open spec fn non_blank_pieces(pieces: Seq<Seq<char>>) -> Seq<Seq<char>>
    decreases pieces.len(),
{
    if pieces.len() == 0 {
        pieces
    } else {
        let rest = non_blank_pieces(pieces.drop_last());
        if all_white_space(pieces.last()) {
            rest
        } else {
            rest.push(pieces.last())
        }
    }
}

/// The statements of a SQL script: the pieces between its `;`s that are not
/// blank, in order.
pub fn sql_statements(script: &str) -> (r: Vec<String>)
    ensures
        texts(r@) == non_blank_pieces(split_on(script@, ';')),
{
    let chars = chars_of(script);
    let mut out: Vec<String> = Vec::new();
    let mut current: Vec<char> = Vec::new();
    let mut i: usize = 0;
    proof {
        assert(chars@.subrange(0, 0) =~= Seq::<char>::empty());
    }
    while i < chars.len()
        invariant
            chars@ == script@,
            i <= chars@.len(),
            split_on(chars@.subrange(0, i as int), ';').len() >= 1,
            texts(out@) == non_blank_pieces(
                split_on(chars@.subrange(0, i as int), ';').drop_last(),
            ),
            current@ == split_on(chars@.subrange(0, i as int), ';').last(),
        decreases chars@.len() - i,
    {
        let c = chars[i];
        let ghost prefix = chars@.subrange(0, i as int);
        let ghost pieces = split_on(prefix, ';');
        assert(chars@.subrange(0, i + 1).drop_last() =~= prefix);
        assert(chars@.subrange(0, i + 1).last() == c);
        if c == ';' {
            let piece = string_of(&current);
            assert(pieces.drop_last().push(pieces.last()) =~= pieces);
            if !is_blank(piece.as_str()) {
                out.push(piece);
            }
            current = Vec::new();
            proof {
                assert(split_on(chars@.subrange(0, i + 1), ';') == pieces.push(
                    Seq::<char>::empty(),
                ));
                assert(pieces.push(Seq::<char>::empty()).drop_last() =~= pieces);
            }
        } else {
            current.push(c);
            proof {
                let next = pieces.update(pieces.len() - 1, pieces.last().push(c));
                assert(split_on(chars@.subrange(0, i + 1), ';') == next);
                assert(next.drop_last() =~= pieces.drop_last());
            }
        }
        i = i + 1;
    }
    proof {
        assert(chars@.subrange(0, chars@.len() as int) =~= chars@);
    }
    let ghost pieces = split_on(chars@, ';');
    assert(pieces.drop_last().push(pieces.last()) =~= pieces);
    let piece = string_of(&current);
    if !is_blank(piece.as_str()) {
        out.push(piece);
    }
    out
}

} // verus!
