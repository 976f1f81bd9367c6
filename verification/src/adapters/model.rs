//! The model adapters' logic: the mock model's answers, and how an
//! OpenAI-compatible chat completion is asked for and read back.
use vstd::prelude::*;

use crate::application::decide_with_snapshot::ModelDecisionRequest;
use crate::domain::error::AppError;
use crate::domain::self_revision::{SelfRevisionProposal, SelfRevisionRequest, TriggerType};
use crate::ports::ModelDecision;
use crate::seqs::opt_text;
use crate::text::{
    chars_of, find_char, first_index_of, lemma_first_index_of, owned, rfind_char,
    seq_ends_with, seq_starts_with, string_of, sub_chars, trim_chars, trim_seq, vec_ends_with,
    vec_starts_with,
};

verus! {

/// A model that answers without asking anyone: it asks for more context
/// when the snapshot holds no claim, and never proposes a revision.
#[derive(Debug, Default, Clone, Copy)]
pub struct MockModel;

/// The name of a trigger type, as its `Debug` form prints it.
pub open spec fn trigger_type_name(t: TriggerType) -> Seq<char> {
    match t {
        TriggerType::Conflict => "Conflict"@,
        TriggerType::Failure => "Failure"@,
        TriggerType::Periodic => "Periodic"@,
    }
}

impl MockModel {
    /// The mock model's action: `request_more_context` for a snapshot
    /// without claims, `summarize_memory_state` otherwise.
    pub fn decide(&self, request: &ModelDecisionRequest) -> (r: Result<ModelDecision, AppError>)
        ensures
            r matches Ok(d) && d.action@ == (if request.snapshot.claims@.len() == 0 {
                "request_more_context"@
            } else {
                "summarize_memory_state"@
            }),
    {
        let action = if request.snapshot.claims.len() == 0 {
            "request_more_context"
        } else {
            "summarize_memory_state"
        };
        Ok(ModelDecision::new(action))
    }

    /// The mock model never proposes a revision; its rationale names the
    /// trigger type.
    pub fn propose_self_revision(&self, request: &SelfRevisionRequest) -> (r: Result<
        SelfRevisionProposal,
        AppError,
    >)
        ensures
            r matches Ok(p) && !p.should_reflect && p.rationale@ == "mock model did not detect a valid "@
                + trigger_type_name(request.trigger_type) + " revision"@
                && p.machine_patch.identity_patch is None && p.machine_patch.commitment_patch is None
                && p.proposed_evidence_event_ids@.len() == 0 && p.proposed_evidence_query is None
                && p.confidence is None,
    {
        let name = match request.trigger_type {
            TriggerType::Conflict => "Conflict",
            TriggerType::Failure => "Failure",
            TriggerType::Periodic => "Periodic",
        };
        let mut rationale = owned("mock model did not detect a valid ");
        rationale.append(name);
        rationale.append(" revision");
        Ok(SelfRevisionProposal::no_revision(rationale.as_str()))
    }
}

/// `s` without the characters `c` at its end.
pub open spec fn trim_end_char(s: Seq<char>, c: char) -> Seq<char>
    decreases s.len(),
{
    if s.len() > 0 && s.last() == c {
        trim_end_char(s.drop_last(), c)
    } else {
        s
    }
}

/// The chat-completions endpoint under a base URL, whatever slashes end it.
pub fn chat_completions_endpoint(base_url: &str) -> (r: String)
    ensures
        r@ == trim_end_char(base_url@, '/') + "/chat/completions"@,
{
    let chars = chars_of(base_url);
    let mut end: usize = chars.len();
    assert(chars@.subrange(0, end as int) =~= chars@);
    while end > 0 && chars[end - 1] == '/'
        invariant
            chars@ == base_url@,
            end <= chars@.len(),
            trim_end_char(base_url@, '/') == trim_end_char(chars@.subrange(0, end as int), '/'),
        decreases end,
    {
        assert(chars@.subrange(0, end as int).drop_last() =~= chars@.subrange(0, end - 1));
        end = end - 1;
    }
    let kept = sub_chars(&chars, 0, end);
    let mut r = string_of(&kept);
    r.append("/chat/completions");
    r
}

/// A message of a chat completion.
#[derive(Debug, Clone, PartialEq, Eq)]
pub struct ChatMessage {
    pub role: String,
    pub content: String,
}

/// The instruction that asks a model for the next action alone.
pub const DECISION_SYSTEM_PROMPT: &'static str =
    "Return only the next action name as plain text with no explanation.";

/// The instruction that asks a model for a self-revision proposal as JSON.
pub const SELF_REVISION_SYSTEM_PROMPT: &'static str =
    "Return only a JSON self-revision proposal with should_reflect, rationale, machine_patch.identity_patch, machine_patch.commitment_patch, proposed_evidence_event_ids, proposed_evidence_query, and confidence.";

/// The messages that ask a model for its decision: the instruction, then the
/// task, the proposed action and the snapshot (as the JSON text that the
/// caller wrote for it).
pub fn decision_messages(task: &str, action: &str, snapshot_json: &str) -> (r: Vec<ChatMessage>)
    ensures
        r@.len() == 2,
        r@[0].role@ == "system"@,
        r@[0].content@ == DECISION_SYSTEM_PROMPT@,
        r@[1].role@ == "user"@,
        r@[1].content@ == "Task: "@ + task@ + "\nAction: "@ + action@ + "\nSnapshot:\n"@
            + snapshot_json@,
{
    let mut user = owned("Task: ");
    user.append(task);
    user.append("\nAction: ");
    user.append(action);
    user.append("\nSnapshot:\n");
    user.append(snapshot_json);
    let mut r: Vec<ChatMessage> = Vec::new();
    r.push(ChatMessage { role: owned("system"), content: owned(DECISION_SYSTEM_PROMPT) });
    r.push(ChatMessage { role: owned("user"), content: user });
    r
}

/// The messages that ask a model for a self-revision proposal: the
/// instruction, then the request (as the JSON text that the caller wrote for
/// it).
pub fn self_revision_messages(request_json: &str) -> (r: Vec<ChatMessage>)
    ensures
        r@.len() == 2,
        r@[0].role@ == "system"@,
        r@[0].content@ == SELF_REVISION_SYSTEM_PROMPT@,
        r@[1].role@ == "user"@,
        r@[1].content@ == "Self revision request:\n"@ + request_json@,
{
    let mut user = owned("Self revision request:\n");
    user.append(request_json);
    let mut r: Vec<ChatMessage> = Vec::new();
    r.push(ChatMessage { role: owned("system"), content: owned(SELF_REVISION_SYSTEM_PROMPT) });
    r.push(ChatMessage { role: owned("user"), content: user });
    r
}

/// The content of the first choice that has one.
pub open spec fn first_content(contents: Seq<Option<String>>) -> Option<Seq<char>>
    decreases contents.len(),
{
    if contents.len() == 0 {
        None
    } else if contents[0] is Some {
        opt_text(contents[0])
    } else {
        first_content(contents.subrange(1, contents.len() as int))
    }
}

/// The text that a reply carries: the first content among its choices,
/// trimmed; none, or one that is blank, counts as empty.
pub open spec fn reply_text(contents: Seq<Option<String>>) -> Seq<char> {
    match first_content(contents) {
        Some(c) => trim_seq(c),
        None => Seq::empty(),
    }
}

/// The text of a reply (`contents` are its choices' message contents), or
/// the given error where it is empty.
pub fn extract_message_content(contents: &[Option<String>], empty_message: &str) -> (r: Result<
    String,
    AppError,
>)
    ensures
        reply_text(contents@).len() > 0 ==> (r matches Ok(t) && t@ == reply_text(contents@)),
        reply_text(contents@).len() == 0 ==> (r matches Err(e) && e is Message && e.message_view()
            == empty_message@),
{
    let mut i: usize = 0;
    assert(contents@.subrange(0, contents@.len() as int) =~= contents@);
    while i < contents.len() && contents[i].is_none()
        invariant
            i <= contents@.len(),
            first_content(contents@) == first_content(
                contents@.subrange(i as int, contents@.len() as int),
            ),
        decreases contents@.len() - i,
    {
        let ghost rest = contents@.subrange(i as int, contents@.len() as int);
        assert(rest.subrange(1, rest.len() as int) =~= contents@.subrange(
            i + 1,
            contents@.len() as int,
        ));
        i = i + 1;
    }
    let trimmed: Vec<char> = if i < contents.len() {
        let ghost rest = contents@.subrange(i as int, contents@.len() as int);
        assert(rest[0] == contents@[i as int]);
        match &contents[i] {
            Some(c) => {
                let chars = chars_of(c.as_str());
                trim_chars(&chars)
            },
            None => Vec::new(),
        }
    } else {
        assert(contents@.subrange(i as int, contents@.len() as int).len() == 0);
        Vec::new()
    };
    if trimmed.len() == 0 {
        return Err(AppError::internal(empty_message));
    }
    Ok(string_of(&trimmed))
}

/// The model's action: the text of its reply.
pub fn extract_action(contents: &[Option<String>]) -> (r: Result<String, AppError>)
    ensures
        reply_text(contents@).len() > 0 ==> (r matches Ok(t) && t@ == reply_text(contents@)),
        reply_text(contents@).len() == 0 ==> (r matches Err(e) && e is Message && e.message_view()
            == "openai-compatible response contained an empty model action"@),
{
    extract_message_content(contents, "openai-compatible response contained an empty model action")
}

/// A text that starts with `{` and ends with `}`.
pub open spec fn braced(s: Seq<char>) -> bool {
    s.len() > 0 && s[0] == '{' && s.last() == '}'
}

/// The body of a Markdown code fence: after an opening ```` ``` ```` and the
/// rest of its line, up to a closing ```` ``` ````, trimmed.
pub open spec fn fenced_body(content: Seq<char>) -> Option<Seq<char>> {
    if !seq_starts_with(content, "```"@) {
        None
    } else {
        let after = content.subrange(3, content.len() as int);
        match first_index_of(after, '\n') {
            None => None,
            Some(i) => {
                let body = after.subrange(i + 1, after.len() as int);
                if seq_ends_with(body, "```"@) {
                    Some(trim_seq(body.subrange(0, body.len() - 3)))
                } else {
                    None
                }
            },
        }
    }
}

/// Index of the last occurrence of `c` in `s`.
pub open spec fn last_index_of(s: Seq<char>, c: char) -> Option<int> {
    if s.contains(c) {
        Some(choose|i: int| 0 <= i < s.len() && s[i] == c && forall|j: int| i < j < s.len() ==> s[j] != c)
    } else {
        None
    }
}

/// The JSON object in a model's reply: the whole trimmed reply where it is
/// braced, else the body of a code fence around it where that is braced,
/// else the text from the first `{` to the last `}` after them.
pub open spec fn json_object_in(content: Seq<char>) -> Option<Seq<char>> {
    let t = trim_seq(content);
    if braced(t) {
        Some(t)
    } else {
        let s = match fenced_body(t) {
            Some(b) => b,
            None => t,
        };
        if braced(s) {
            Some(s)
        } else {
            match (first_index_of(s, '{'), last_index_of(s, '}')) {
                (Some(a), Some(b)) => if a < b {
                    Some(s.subrange(a, b + 1))
                } else {
                    None
                },
                _ => None,
            }
        }
    }
}

/// Whether a list of characters starts with `{` and ends with `}`.
fn is_braced(v: &[char]) -> (r: bool)
    ensures
        r == braced(v@),
{
    v.len() > 0 && v[0] == '{' && v[v.len() - 1] == '}'
}

/// The body of a code fence around `content`, if it is fenced.
pub fn strip_code_fence(content: &[char]) -> (r: Option<Vec<char>>)
    ensures
        match r {
            Some(b) => fenced_body(content@) == Some(b@),
            None => fenced_body(content@) is None,
        },
{
    let fence = chars_of("```");
    proof {
        reveal_strlit("```");
    }
    if !vec_starts_with(content, &fence) {
        return None;
    }
    let after = sub_chars(content, 3, content.len());
    let i = match find_char(&after, '\n') {
        Some(i) => {
            proof {
                lemma_first_index_of(after@, '\n', i as int);
            }
            i
        },
        None => {
            return None;
        },
    };
    let body = sub_chars(&after, i + 1, after.len());
    if !vec_ends_with(&body, &fence) {
        return None;
    }
    let inner = sub_chars(&body, 0, body.len() - 3);
    Some(trim_chars(&inner))
}

/// The last occurrence of `c`, when found by a scan from the end, is what
/// `last_index_of` names.
proof fn lemma_last_index_of(s: Seq<char>, c: char, i: int)
    requires
        0 <= i < s.len(),
        s[i] == c,
        forall|j: int| i < j < s.len() ==> s[j] != c,
    ensures
        last_index_of(s, c) == Some(i),
{
    assert(s.contains(c));
    let k = choose|k: int| 0 <= k < s.len() && s[k] == c && forall|j: int| k < j < s.len() ==> s[j] != c;
    if k < i {
        assert(s[i] != c);
    }
    if k > i {
        assert(s[k] != c);
    }
}

/// The JSON object in a model's reply, if it holds one.
pub fn extract_json_object(content: &str) -> (r: Option<String>)
    ensures
        opt_text(r) == json_object_in(content@),
{
    let chars = chars_of(content);
    let trimmed = trim_chars(&chars);
    if is_braced(&trimmed) {
        return Some(string_of(&trimmed));
    }
    let stripped = match strip_code_fence(&trimmed) {
        Some(b) => b,
        None => trimmed,
    };
    if is_braced(&stripped) {
        return Some(string_of(&stripped));
    }
    let start = match find_char(&stripped, '{') {
        Some(a) => {
            proof {
                lemma_first_index_of(stripped@, '{', a as int);
            }
            a
        },
        None => {
            return None;
        },
    };
    let end = match rfind_char(&stripped, '}') {
        Some(b) => {
            proof {
                lemma_last_index_of(stripped@, '}', b as int);
            }
            b
        },
        None => {
            return None;
        },
    };
    if start < end && end < stripped.len() {
        Some(string_of(&sub_chars(&stripped, start, end + 1)))
    } else {
        None
    }
}

/// The JSON text of a self-revision proposal in a model's reply: the reply
/// must not be empty and must hold a JSON object.
pub fn self_revision_proposal_json(contents: &[Option<String>]) -> (r: Result<String, AppError>)
    ensures
        reply_text(contents@).len() == 0 ==> (r matches Err(e) && e is Message && e.message_view()
            == "openai-compatible response contained an empty self-revision proposal"@),
        reply_text(contents@).len() > 0 ==> match json_object_in(reply_text(contents@)) {
            Some(j) => (r matches Ok(t) && t@ == j),
            None => (r matches Err(e) && e is Message && e.message_view()
                == "openai-compatible self-revision proposal did not contain a JSON object"@),
        },
{
    let content = match extract_message_content(
        contents,
        "openai-compatible response contained an empty self-revision proposal",
    ) {
        Ok(c) => c,
        Err(e) => {
            return Err(e);
        },
    };
    match extract_json_object(content.as_str()) {
        Some(j) => Ok(j),
        None => Err(
            AppError::internal(
                "openai-compatible self-revision proposal did not contain a JSON object",
            ),
        ),
    }
}

/// The error for a reply whose HTTP status is not 200.
pub fn http_status_error(status: u16, body: &str) -> (r: AppError)
    ensures
        r is Message,
        r.message_view() == "openai-compatible request failed with status "@ + crate::text::decimal(
            status as nat,
        ) + ": "@ + body@,
{
    let mut m = owned("openai-compatible request failed with status ");
    m.append(crate::text::decimal_u64(status as u64).as_str());
    m.append(": ");
    m.append(body);
    AppError::Message(m)
}

} // verus!
