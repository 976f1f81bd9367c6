//! The durable operation log: what kind of operation ran, by whom, and how it ended.
use vstd::prelude::*;

use crate::domain::json_tree::{
    parse_json, parsed_json, tree_view, write_json, written_json, JsonTree, JsonView,
};
use crate::domain::time::Timestamp;
use crate::text::{owned, seq_contains_seq, str_contains};

verus! {

/// The kind of a logged operation.
#[derive(Debug, Clone, Copy, PartialEq, Eq, Structural)]
pub enum OperationLogKind {
    Startup,
    Tool,
    Trigger,
    Reflection,
    Decision,
    Snapshot,
    Doctor,
    Error,
}

/// The stored label of an operation kind.
pub open spec fn operation_kind_label(kind: OperationLogKind) -> Seq<char> {
    match kind {
        OperationLogKind::Startup => "startup"@,
        OperationLogKind::Tool => "tool"@,
        OperationLogKind::Trigger => "trigger"@,
        OperationLogKind::Reflection => "reflection"@,
        OperationLogKind::Decision => "decision"@,
        OperationLogKind::Snapshot => "snapshot"@,
        OperationLogKind::Doctor => "doctor"@,
        OperationLogKind::Error => "error"@,
    }
}

impl OperationLogKind {
    pub fn as_str(self) -> (r: &'static str)
        ensures
            r@ == operation_kind_label(self),
    {
        match self {
            OperationLogKind::Startup => "startup",
            OperationLogKind::Tool => "tool",
            OperationLogKind::Trigger => "trigger",
            OperationLogKind::Reflection => "reflection",
            OperationLogKind::Decision => "decision",
            OperationLogKind::Snapshot => "snapshot",
            OperationLogKind::Doctor => "doctor",
            OperationLogKind::Error => "error",
        }
    }
}

/// How a logged operation ended (or that it started).
#[derive(Debug, Clone, Copy, PartialEq, Eq, Structural)]
pub enum OperationLogStatus {
    Started,
    Ok_,
    Handled,
    Suppressed,
    Rejected,
    Failed,
}

/// The stored label of an operation status.
pub open spec fn operation_status_label(status: OperationLogStatus) -> Seq<char> {
    match status {
        OperationLogStatus::Started => "started"@,
        OperationLogStatus::Ok_ => "ok"@,
        OperationLogStatus::Handled => "handled"@,
        OperationLogStatus::Suppressed => "suppressed"@,
        OperationLogStatus::Rejected => "rejected"@,
        OperationLogStatus::Failed => "failed"@,
    }
}

impl OperationLogStatus {
    pub fn as_str(self) -> (r: &'static str)
        ensures
            r@ == operation_status_label(self),
    {
        match self {
            OperationLogStatus::Started => "started",
            OperationLogStatus::Ok_ => "ok",
            OperationLogStatus::Handled => "handled",
            OperationLogStatus::Suppressed => "suppressed",
            OperationLogStatus::Rejected => "rejected",
            OperationLogStatus::Failed => "failed",
        }
    }
}

/// Who started a logged operation.
#[derive(Debug, Clone, Copy, PartialEq, Eq, Structural)]
pub enum ActorKind {
    System,
    User,
    Model,
    Hook,
}

/// The stored label of an actor kind.
pub open spec fn actor_kind_label(kind: ActorKind) -> Seq<char> {
    match kind {
        ActorKind::System => "system"@,
        ActorKind::User => "user"@,
        ActorKind::Model => "model"@,
        ActorKind::Hook => "hook"@,
    }
}

impl ActorKind {
    pub fn as_str(self) -> (r: &'static str)
        ensures
            r@ == actor_kind_label(self),
    {
        match self {
            ActorKind::System => "system",
            ActorKind::User => "user",
            ActorKind::Model => "model",
            ActorKind::Hook => "hook",
        }
    }
}

/// One entry of the operation log; the summaries are JSON texts.
#[derive(Debug, Clone, PartialEq, Eq)]
pub struct OperationLogEntry {
    pub operation_id: String,
    pub occurred_at: Timestamp,
    pub namespace: Option<String>,
    pub actor_kind: ActorKind,
    pub actor_id: String,
    pub entrypoint: String,
    pub operation_kind: OperationLogKind,
    pub status: OperationLogStatus,
    pub correlation_id: Option<String>,
    pub request_summary_json: Option<String>,
    pub response_summary_json: Option<String>,
    pub diagnostic_summary_json: Option<String>,
    pub redaction_version: i64,
}

/// The lowercase form of a text, as `str::to_lowercase` gives it.
pub uninterp spec fn lowercase_of(text: Seq<char>) -> Seq<char>;

/// `str::to_lowercase`. The result is named, not described: Unicode's
/// lowercase mapping of the text.
#[verifier::external_body]
fn lowercase(text: &str) -> (r: String)
    ensures
        r@ == lowercase_of(text@),
{
    text.to_lowercase()
}

/// The fragments that mark an object key as naming a secret.
pub open spec fn redaction_patterns() -> Seq<Seq<char>> {
    seq!["api_key"@, "secret"@, "token"@, "bearer"@, "password"@]
}

/// The key's lowercase form contains one of the redaction patterns.
pub open spec fn is_secret_key(key: Seq<char>) -> bool {
    exists|i: int|
        0 <= i < redaction_patterns().len() && #[trigger] seq_contains_seq(
            lowercase_of(key),
            redaction_patterns()[i],
        )
}

/// What a redacted secret reads.
pub open spec fn redacted_marker() -> Seq<char> {
    "[REDACTED]"@
}

/// The value under a member after redaction: a text under a secret key
/// becomes the marker, any other value under a secret key stays as it is,
/// and a value under any other key is redacted in turn.
pub open spec fn redact_member(key: Seq<char>, value: JsonView) -> JsonView
    decreases value, 1nat,
{
    if is_secret_key(key) {
        if value is Text {
            JsonView::Text(redacted_marker())
        } else {
            value
        }
    } else {
        redact_view(value)
    }
}

/// A document with every text under a secret key replaced by the marker,
/// at any depth; objects under secret keys are not looked into.
pub open spec fn redact_view(doc: JsonView) -> JsonView
    decreases doc, 0nat,
{
    match doc {
        JsonView::Array(items) => JsonView::Array(
            Seq::new(
                items.len(),
                |i: int|
                    if 0 <= i < items.len() {
                        redact_view(items[i])
                    } else {
                        JsonView::Null
                    },
            ),
        ),
        JsonView::Object(members) => JsonView::Object(
            Seq::new(
                members.len(),
                |i: int|
                    if 0 <= i < members.len() {
                        (members[i].0, redact_member(members[i].0, members[i].1))
                    } else {
                        (Seq::empty(), JsonView::Null)
                    },
            ),
        ),
        _ => doc,
    }
}

/// Whether the key names a secret.
pub fn secret_key(key: &str) -> (r: bool)
    ensures
        r == is_secret_key(key@),
{
    let lower = lowercase(key);
    let patterns = ["api_key", "secret", "token", "bearer", "password"];
    proof {
        reveal_strlit("api_key");
        reveal_strlit("secret");
        reveal_strlit("token");
        reveal_strlit("bearer");
        reveal_strlit("password");
    }
    let mut i: usize = 0;
    while i < 5
        invariant
            i <= 5,
            lower@ == lowercase_of(key@),
            forall|j: int| 0 <= j < 5 ==> patterns@[j]@ == redaction_patterns()[j],
            forall|j: int| 0 <= j < i ==> !seq_contains_seq(lower@, redaction_patterns()[j]),
        decreases 5 - i,
    {
        if str_contains(lower.as_str(), patterns[i]) {
            assert(seq_contains_seq(lowercase_of(key@), redaction_patterns()[i as int]));
            return true;
        }
        i = i + 1;
    }
    false
}

/// The document with its secrets redacted, as `redact_view` says.
pub fn redact_tree(doc: JsonTree) -> (r: JsonTree)
    ensures
        tree_view(r) == redact_view(tree_view(doc)),
    decreases doc,
{
    let ghost d0 = doc;
    match doc {
        JsonTree::Array(items) => {
            let ghost orig = items;
            let mut rest = items;
            let mut out: Vec<JsonTree> = Vec::new();
            while rest.len() > 0
                invariant
                    d0 == doc,
                    d0 == JsonTree::Array(orig),
                    out.len() + rest.len() == orig.len(),
                    rest@ == orig@.subrange(out.len() as int, orig.len() as int),
                    forall|j: int|
                        0 <= j < out.len() ==> tree_view(#[trigger] out@[j]) == redact_view(
                            tree_view(orig@[j]),
                        ),
                decreases rest.len(),
            {
                let ghost k = out.len() as int;
                let item = rest.remove(0);
                proof {
                    assert(item == orig@[k]);
                    assert(decreases_to!(d0 => d0->Array_0));
                    assert(decreases_to!(orig => orig[k]));
                }
                let red = redact_tree(item);
                out.push(red);
            }
            let r = JsonTree::Array(out);
            proof {
                let a = tree_view(r);
                let b = redact_view(tree_view(d0));
                assert(a->Array_0 =~= b->Array_0);
            }
            r
        },
        JsonTree::Object(members) => {
            let ghost orig = members;
            let mut rest = members;
            let mut out: Vec<(String, JsonTree)> = Vec::new();
            while rest.len() > 0
                invariant
                    d0 == doc,
                    d0 == JsonTree::Object(orig),
                    out.len() + rest.len() == orig.len(),
                    rest@ == orig@.subrange(out.len() as int, orig.len() as int),
                    forall|j: int|
                        0 <= j < out.len() ==> (#[trigger] out@[j]).0@ == orig@[j].0@ && tree_view(
                            out@[j].1,
                        ) == redact_member(orig@[j].0@, tree_view(orig@[j].1)),
                decreases rest.len(),
            {
                let ghost k = out.len() as int;
                let (key, value) = rest.remove(0);
                proof {
                    assert(key == orig@[k].0 && value == orig@[k].1);
                }
                if secret_key(key.as_str()) {
                    match value {
                        JsonTree::Text(_) => {
                            let marker = owned("[REDACTED]");
                            proof {
                                reveal_strlit("[REDACTED]");
                            }
                            out.push((key, JsonTree::Text(marker)));
                        },
                        other => {
                            out.push((key, other));
                        },
                    }
                } else {
                    proof {
                        assert(decreases_to!(d0 => d0->Object_0));
                        assert(decreases_to!(orig => orig[k]));
                        assert(decreases_to!(orig[k] => orig[k].1));
                    }
                    let red = redact_tree(value);
                    out.push((key, red));
                }
            }
            let r = JsonTree::Object(out);
            proof {
                let a = tree_view(r);
                let b = redact_view(tree_view(d0));
                assert(a->Object_0 =~= b->Object_0);
            }
            r
        },
        other => other,
    }
}

/// A JSON text with every string under a key that names a secret (one
/// whose lowercase form contains `api_key`, `secret`, `token`, `bearer` or
/// `password`) replaced by `[REDACTED]`. A text that is not JSON, or whose
/// redacted document cannot be written, comes back unchanged.
pub fn redact_secrets(json_text: &str) -> (r: String)
    ensures
        r@ == match parsed_json(json_text@) {
            Some(doc) => match written_json(redact_view(doc)) {
                Some(t) => t,
                None => json_text@,
            },
            None => json_text@,
        },
{
    match parse_json(json_text) {
        Some(doc) => match write_json(redact_tree(doc)) {
            Some(text) => text,
            None => owned(json_text),
        },
        None => owned(json_text),
    }
}

/// Redaction is idempotent: redacting a redacted document changes nothing.
pub proof fn lemma_redaction_is_idempotent(doc: JsonView)
    ensures
        redact_view(redact_view(doc)) == redact_view(doc),
    decreases doc,
{
    match doc {
        JsonView::Array(items) => {
            let once = redact_view(doc);
            let twice = redact_view(once);
            assert forall|i: int| 0 <= i < items.len() implies twice->Array_0[i]
                == once->Array_0[i] by {
                lemma_redaction_is_idempotent(items[i]);
            }
            assert(twice->Array_0 =~= once->Array_0);
        },
        JsonView::Object(members) => {
            let once = redact_view(doc);
            let twice = redact_view(once);
            assert forall|i: int| 0 <= i < members.len() implies twice->Object_0[i]
                == once->Object_0[i] by {
                let k = members[i].0;
                let v = members[i].1;
                assert(once->Object_0[i] == (k, redact_member(k, v)));
                assert(twice->Object_0[i] == (k, redact_member(k, redact_member(k, v))));
                if !is_secret_key(k) {
                    lemma_redaction_is_idempotent(v);
                }
            }
            assert(twice->Object_0 =~= once->Object_0);
        },
        _ => {},
    }
}

} // verus!
