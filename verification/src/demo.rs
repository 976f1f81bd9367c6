//! The logic of the self-revision demo and of its stub model server: how the
//! stub answers a chat completion, how it reads an HTTP request, how the
//! demo's arguments and configuration read, and how its report is written.
use vstd::prelude::*;

use crate::adapters::sqlite::schema::split_on;
use crate::seqs::{opt_text, texts};
use crate::text::{
    chars_of, decimal, decimal_i64, eq_ignore_ascii_case, find_char, first_index_of,
    lemma_first_index_of, occurs_at, owned, seq_contains_seq, signed_decimal, str_contains,
    str_eq_ignore_ascii_case, string_of, sub_chars, trim_chars, trim_seq,
};

verus! {

/// The self-revision proposal that the stub model returns, as the JSON text
/// that `serde_json` writes for it (keys in order).
pub const DEMO_PROPOSAL_JSON: &'static str = "{\"confidence\":\"high\",\"machine_patch\":{\"commitment_patch\":{\"commitments\":[\"prefer:confirm_conflicting_commitment_updates_before_overwrite\"]},\"identity_patch\":null},\"proposed_evidence_event_ids\":[],\"proposed_evidence_query\":{\"kind\":\"Action\",\"limit\":1,\"owner\":\"Self_\"},\"rationale\":\"Conflict evidence suggests tighter commitment hygiene.\",\"should_reflect\":true}";

/// What the stub model answers to a chat completion whose first two
/// messages read `system` and `user`: an action for a decision request (the
/// cautious one once the user text carries the cautious commitment), the
/// fixed proposal for a self-revision request, and a refusal otherwise.
pub open spec fn stub_answer(system: Seq<char>, user: Seq<char>) -> Seq<char> {
    if seq_contains_seq(system, "Return only the next action name"@) && seq_contains_seq(
        user,
        "Task:"@,
    ) {
        if seq_contains_seq(
            user,
            "prefer:confirm_conflicting_commitment_updates_before_overwrite"@,
        ) {
            "confirm_conflicting_commitment_updates_before_overwrite"@
        } else {
            "apply_commitment_update_now"@
        }
    } else if seq_contains_seq(system, "Return only a JSON self-revision proposal"@)
        && seq_contains_seq(user, "Self revision request:"@) {
        DEMO_PROPOSAL_JSON@
    } else {
        "unsupported_demo_request"@
    }
}

/// The stub model's answer to a chat completion (see `stub_answer`).
pub fn classify_response(system: &str, user: &str) -> (r: String)
    ensures
        r@ == stub_answer(system@, user@),
{
    if str_contains(system, "Return only the next action name") && str_contains(user, "Task:") {
        let action = if str_contains(
            user,
            "prefer:confirm_conflicting_commitment_updates_before_overwrite",
        ) {
            "confirm_conflicting_commitment_updates_before_overwrite"
        } else {
            "apply_commitment_update_now"
        };
        return owned(action);
    }
    if str_contains(system, "Return only a JSON self-revision proposal") && str_contains(
        user,
        "Self revision request:",
    ) {
        return owned(DEMO_PROPOSAL_JSON);
    }
    owned("unsupported_demo_request")
}

/// Why a text does not parse as an unsigned integer, as Rust names it.
#[derive(Debug, Clone, Copy, PartialEq, Eq, Structural)]
pub enum IntParseError {
    Empty,
    InvalidDigit,
    PosOverflow,
}

impl IntParseError {
    /// The message that Rust's `ParseIntError` displays.
    pub fn message(self) -> (r: &'static str)
        ensures
            r@ == int_parse_error_message(self),
    {
        match self {
            IntParseError::Empty => "cannot parse integer from empty string",
            IntParseError::InvalidDigit => "invalid digit found in string",
            IntParseError::PosOverflow => "number too large to fit in target type",
        }
    }
}

/// The message that Rust's `ParseIntError` displays for each kind.
pub open spec fn int_parse_error_message(e: IntParseError) -> Seq<char> {
    match e {
        IntParseError::Empty => "cannot parse integer from empty string"@,
        IntParseError::InvalidDigit => "invalid digit found in string"@,
        IntParseError::PosOverflow => "number too large to fit in target type"@,
    }
}

/// The value of a decimal digit character.
pub open spec fn digit_value(c: char) -> int {
    (c as int) - ('0' as int)
}

/// Reads the digits of `s` from the left onto `acc`, as Rust's integer
/// parser does: the first non-digit is an invalid digit, and a value above
/// `max` overflows as soon as it is reached.
pub open spec fn scan_digits(s: Seq<char>, acc: int, max: int) -> Result<int, IntParseError>
    decreases s.len(),
{
    if s.len() == 0 {
        Ok(acc)
    } else if !('0' <= s[0] <= '9') {
        Err(IntParseError::InvalidDigit)
    } else if acc * 10 + digit_value(s[0]) > max {
        Err(IntParseError::PosOverflow)
    } else {
        scan_digits(s.subrange(1, s.len() as int), acc * 10 + digit_value(s[0]), max)
    }
}

/// What Rust's `str::parse` makes of a text for an unsigned integer type
/// whose largest value is `max`: an empty text is refused, one leading `+`
/// is allowed unless it is all there is, and the rest must be digits.
pub open spec fn parse_unsigned_text(s: Seq<char>, max: int) -> Result<int, IntParseError> {
    if s.len() == 0 {
        Err(IntParseError::Empty)
    } else if s.len() == 1 && (s[0] == '+' || s[0] == '-') {
        Err(IntParseError::InvalidDigit)
    } else if s[0] == '+' {
        scan_digits(s.subrange(1, s.len() as int), 0, max)
    } else {
        scan_digits(s, 0, max)
    }
}

/// Parses an unsigned integer no larger than `max` as Rust's `str::parse`
/// does for an unsigned type of that range.
pub fn parse_unsigned(s: &str, max: u64) -> (r: Result<u64, IntParseError>)
    ensures
        match parse_unsigned_text(s@, max as int) {
            Ok(v) => r == Ok::<u64, IntParseError>(v as u64) && 0 <= v <= max,
            Err(e) => r == Err::<u64, IntParseError>(e),
        },
{
    let chars = chars_of(s);
    if chars.len() == 0 {
        return Err(IntParseError::Empty);
    }
    if chars.len() == 1 && (chars[0] == '+' || chars[0] == '-') {
        return Err(IntParseError::InvalidDigit);
    }
    let start: usize = if chars[0] == '+' {
        1
    } else {
        0
    };
    let ghost digits = chars@.subrange(start as int, chars@.len() as int);
    let mut acc: u64 = 0;
    let mut i: usize = start;
    assert(chars@.subrange(0, chars@.len() as int) =~= chars@);
    while i < chars.len()
        invariant
            chars@ == s@,
            start <= i <= chars@.len(),
            acc <= max,
            parse_unsigned_text(s@, max as int) == scan_digits(
                chars@.subrange(i as int, chars@.len() as int),
                acc as int,
                max as int,
            ),
        decreases chars@.len() - i,
    {
        let ghost rest = chars@.subrange(i as int, chars@.len() as int);
        assert(rest[0] == chars@[i as int]);
        assert(rest.subrange(1, rest.len() as int) =~= chars@.subrange(
            i + 1,
            chars@.len() as int,
        ));
        let c = chars[i];
        if !('0' <= c && c <= '9') {
            return Err(IntParseError::InvalidDigit);
        }
        let d: u64 = (c as u32 - '0' as u32) as u64;
        assert(d as int == digit_value(c));
        let next: u128 = acc as u128 * 10 + d as u128;
        if next > max as u128 {
            return Err(IntParseError::PosOverflow);
        }
        acc = next as u64;
        i = i + 1;
    }
    Ok(acc)
}

/// `s` split at `\n`, as `str::lines` splits it: a `\r` before a `\n` is
/// dropped, and a final line ending starts no further line.
pub open spec fn text_lines(s: Seq<char>) -> Seq<Seq<char>> {
    let pieces = split_on(s, '\n');
    let full = if pieces.last().len() == 0 {
        pieces.drop_last()
    } else {
        pieces
    };
    Seq::new(
        full.len(),
        |i: int|
            if i < pieces.len() - 1 && full[i].len() > 0 && full[i].last() == '\r' {
                full[i].drop_last()
            } else {
                full[i]
            },
    )
}

/// The length that a header line gives, if it is a `content-length` header
/// with a number that parses: the name is compared without regard to ASCII
/// case, the value is trimmed.
pub open spec fn content_length_of_line(line: Seq<char>) -> Option<int> {
    match first_index_of(line, ':') {
        None => None,
        Some(i) => if eq_ignore_ascii_case(line.subrange(0, i), "content-length"@) {
            match parse_unsigned_text(
                trim_seq(line.subrange(i + 1, line.len() as int)),
                usize::MAX as int,
            ) {
                Ok(v) => Some(v),
                Err(_) => None,
            }
        } else {
            None
        },
    }
}

/// The length that the first usable `content-length` line gives.
pub open spec fn first_content_length(lines: Seq<Seq<char>>) -> Option<int>
    decreases lines.len(),
{
    if lines.len() == 0 {
        None
    } else {
        match content_length_of_line(lines[0]) {
            Some(v) => Some(v),
            None => first_content_length(lines.subrange(1, lines.len() as int)),
        }
    }
}

/// The length that a header line gives, if it gives one.
pub fn line_content_length(line: &[char]) -> (r: Option<usize>)
    ensures
        match content_length_of_line(line@) {
            Some(v) => r == Some(v as usize) && 0 <= v <= usize::MAX,
            None => r is None,
        },
{
    let i = match find_char(line, ':') {
        Some(i) => {
            proof {
                lemma_first_index_of(line@, ':', i as int);
            }
            i
        },
        None => {
            return None;
        },
    };
    let n = line.len();
    assert(i < n);
    let name = string_of(&sub_chars(line, 0, i));
    if !str_eq_ignore_ascii_case(name.as_str(), "content-length") {
        return None;
    }
    let value = trim_chars(&sub_chars(line, i + 1, n));
    match parse_unsigned(string_of(&value).as_str(), usize::MAX as u64) {
        Ok(v) => Some(v as usize),
        Err(_) => None,
    }
}

/// The lines of a text, as `str::lines` gives them.
pub fn lines_of(text: &str) -> (r: Vec<Vec<char>>)
    ensures
        r@.map_values(|l: Vec<char>| l@) == text_lines(text@),
{
    let chars = chars_of(text);
    let mut pieces: Vec<Vec<char>> = Vec::new();
    let mut current: Vec<char> = Vec::new();
    let mut i: usize = 0;
    assert(chars@.subrange(0, 0) =~= Seq::<char>::empty());
    while i < chars.len()
        invariant
            chars@ == text@,
            i <= chars@.len(),
            pieces@.map_values(|l: Vec<char>| l@).push(current@) == split_on(
                chars@.subrange(0, i as int),
                '\n',
            ),
        decreases chars@.len() - i,
    {
        let c = chars[i];
        let ghost prefix = chars@.subrange(0, i as int);
        let ghost before = pieces@.map_values(|l: Vec<char>| l@);
        assert(chars@.subrange(0, i + 1).drop_last() =~= prefix);
        assert(chars@.subrange(0, i + 1).last() == c);
        if c == '\n' {
            let done = current;
            pieces.push(done);
            current = Vec::new();
            assert(pieces@.map_values(|l: Vec<char>| l@) =~= before.push(done@));
            assert(pieces@.map_values(|l: Vec<char>| l@).push(current@) =~= split_on(
                prefix,
                '\n',
            ).push(Seq::<char>::empty()));
        } else {
            let ghost old_current = current@;
            current.push(c);
            assert(split_on(prefix, '\n') =~= before.push(old_current));
            assert(before.push(current@) =~= before.push(old_current).update(
                before.len() as int,
                old_current.push(c),
            ));
        }
        i = i + 1;
    }
    assert(chars@.subrange(0, chars@.len() as int) =~= chars@);
    let ghost pieces_view = split_on(text@, '\n');
    let ghost full = if pieces_view.last().len() == 0 {
        pieces_view.drop_last()
    } else {
        pieces_view
    };
    let n_pieces: usize = pieces.len();
    let last_nonempty = current.len() > 0;
    if last_nonempty {
        pieces.push(current);
    }
    assert(pieces@.map_values(|l: Vec<char>| l@) =~= full);
    let mut out: Vec<Vec<char>> = Vec::new();
    let mut k: usize = 0;
    while k < pieces.len()
        invariant
            k <= pieces@.len(),
            pieces@.map_values(|l: Vec<char>| l@) == full,
            pieces_view.len() == n_pieces + 1,
            full.len() == pieces@.len(),
            out@.map_values(|l: Vec<char>| l@) == text_lines(text@).subrange(0, k as int),
            text_lines(text@) == Seq::new(
                full.len(),
                |j: int|
                    if j < pieces_view.len() - 1 && full[j].len() > 0 && full[j].last() == '\r' {
                        full[j].drop_last()
                    } else {
                        full[j]
                    },
            ),
        decreases pieces@.len() - k,
    {
        let line = &pieces[k];
        assert(line@ == full[k as int]);
        let ghost before = out@.map_values(|l: Vec<char>| l@);
        let ghost tl = text_lines(text@);
        assert(tl[k as int] == (if k < pieces_view.len() - 1 && full[k as int].len() > 0
            && full[k as int].last() == '\r' {
            full[k as int].drop_last()
        } else {
            full[k as int]
        }));
        if k < n_pieces && line.len() > 0 && line[line.len() - 1] == '\r' {
            out.push(sub_chars(line, 0, line.len() - 1));
            assert(full[k as int].drop_last() =~= full[k as int].subrange(
                0,
                full[k as int].len() - 1,
            ));
        } else {
            out.push(sub_chars(line, 0, line.len()));
            assert(full[k as int].subrange(0, full[k as int].len() as int) =~= full[k as int]);
        }
        assert(out@.map_values(|l: Vec<char>| l@) =~= before.push(tl[k as int]));
        k = k + 1;
        assert(tl.subrange(0, k as int) =~= tl.subrange(0, k - 1).push(tl[k - 1]));
    }
    assert(text_lines(text@).subrange(0, pieces@.len() as int) =~= text_lines(text@));
    out
}

/// The length that the headers of an HTTP request give, if any line gives
/// one.
pub fn parse_content_length(headers: &str) -> (r: Option<usize>)
    ensures
        match first_content_length(text_lines(headers@)) {
            Some(v) => r == Some(v as usize),
            None => r is None,
        },
{
    let lines = lines_of(headers);
    let ghost all = text_lines(headers@);
    let mut i: usize = 0;
    assert(all.subrange(0, all.len() as int) =~= all);
    while i < lines.len()
        invariant
            all == text_lines(headers@),
            lines@.map_values(|l: Vec<char>| l@) == all,
            i <= lines@.len(),
            first_content_length(all) == first_content_length(
                all.subrange(i as int, all.len() as int),
            ),
        decreases lines@.len() - i,
    {
        let ghost rest = all.subrange(i as int, all.len() as int);
        assert(all[i as int] == lines@[i as int]@);
        assert(rest[0] == lines@[i as int]@);
        assert(rest.subrange(1, rest.len() as int) =~= all.subrange(i + 1, all.len() as int));
        match line_content_length(&lines[i]) {
            Some(v) => {
                assert(content_length_of_line(rest[0]) == Some(v as int));
                assert(first_content_length(rest) == Some(v as int));
                return Some(v);
            },
            None => {},
        }
        i = i + 1;
    }
    None
}

/// The first position at which `\r\n\r\n` starts in `bytes`.
pub open spec fn header_end_of(bytes: Seq<u8>) -> Option<int> {
    if exists|i: int| 0 <= i && i + 4 <= bytes.len() && is_blank_line_at(bytes, i) {
        Some(
            choose|i: int|
                0 <= i && i + 4 <= bytes.len() && is_blank_line_at(bytes, i) && forall|j: int|
                    0 <= j < i ==> !is_blank_line_at(bytes, j),
        )
    } else {
        None
    }
}

/// `\r\n\r\n` starts at position `i` of `bytes`.
pub open spec fn is_blank_line_at(bytes: Seq<u8>, i: int) -> bool {
    0 <= i && i + 4 <= bytes.len() && bytes[i] == 13u8 && bytes[i + 1] == 10u8 && bytes[i + 2]
        == 13u8 && bytes[i + 3] == 10u8
}

/// Where the headers of an HTTP request end: the first `\r\n\r\n`.
pub fn find_header_end(buffer: &[u8]) -> (r: Option<usize>)
    ensures
        match r {
            Some(i) => header_end_of(buffer@) == Some(i as int),
            None => header_end_of(buffer@) is None,
        },
{
    let mut i: usize = 0;
    while i < buffer.len() && buffer.len() - i >= 4
        invariant
            forall|j: int| 0 <= j < i ==> !is_blank_line_at(buffer@, j),
        decreases buffer@.len() - i,
    {
        if buffer[i] == 13u8 && buffer[i + 1] == 10u8 && buffer[i + 2] == 13u8 && buffer[i + 3]
            == 10u8 {
            proof {
                assert(is_blank_line_at(buffer@, i as int));
                let k = choose|k: int|
                    0 <= k && k + 4 <= buffer@.len() && is_blank_line_at(buffer@, k) && forall|
                        j: int,
                    | 0 <= j < k ==> !is_blank_line_at(buffer@, j);
                if k < i {
                    assert(!is_blank_line_at(buffer@, k));
                }
                if k > i {
                    assert(!is_blank_line_at(buffer@, i as int));
                }
            }
            return Some(i);
        }
        i = i + 1;
    }
    proof {
        assert forall|j: int|
            0 <= j && j + 4 <= buffer@.len() implies !is_blank_line_at(buffer@, j) by {
            assert(j < i);
        }
    }
    None
}

/// The arguments that the stub server takes: `--port <port>`, or none (the
/// system picks the port, 0).
pub fn parse_port(args: &[String]) -> (r: Result<u16, String>)
    ensures
        args@.len() == 0 ==> r == Ok::<u16, String>(0),
        args@.len() >= 2 && args@[0]@ == "--port"@ ==> match parse_unsigned_text(
            args@[1]@,
            u16::MAX as int,
        ) {
            Ok(v) => r == Ok::<u16, String>(v as u16),
            Err(e) => (r matches Err(m) && m@ == int_parse_error_message(e)),
        },
        (args@.len() == 1 || (args@.len() >= 2 && args@[0]@ != "--port"@)) ==> (r matches Err(m)
            && m@ == "usage: demo_openai_compatible_stub [--port <port>]"@),
{
    if args.len() == 0 {
        return Ok(0);
    }
    if args.len() >= 2 && crate::text::same_text(args[0].as_str(), "--port") {
        return match parse_unsigned(args[1].as_str(), u16::MAX as u64) {
            Ok(v) => Ok(v as u16),
            Err(e) => Err(owned(e.message())),
        };
    }
    Err(owned("usage: demo_openai_compatible_stub [--port <port>]"))
}

/// The first position at which `sep` occurs in `s`.
pub open spec fn first_occurrence(s: Seq<char>, sep: Seq<char>) -> int {
    choose|i: int| occurs_at(s, sep, i) && forall|j: int| 0 <= j < i ==> !occurs_at(s, sep, j)
}

/// The second piece of `s` split at `sep`: the text after the first
/// occurrence of `sep`, up to the next one.
pub open spec fn second_piece(s: Seq<char>, sep: Seq<char>) -> Option<Seq<char>> {
    match occurrence(s, sep) {
        None => None,
        Some(i) => {
            let rest = s.subrange(i + sep.len(), s.len() as int);
            match occurrence(rest, sep) {
                Some(j) => Some(rest.subrange(0, j)),
                None => Some(rest),
            }
        },
    }
}

/// Where `sep` first occurs in `s`, if it does.
#[verifier::opaque]
pub open spec fn occurrence(s: Seq<char>, sep: Seq<char>) -> Option<int> {
    if seq_contains_seq(s, sep) {
        Some(first_occurrence(s, sep))
    } else {
        None
    }
}

/// The body of an HTTP request, as the second piece of splitting it at
/// `\r\n\r\n`: the text after the first blank line, up to a second one.
pub open spec fn http_body_of(request: Seq<char>) -> Option<Seq<char>> {
    second_piece(request, "\r\n\r\n"@)
}

/// Where `p` first occurs in `v`, found by a scan.
fn find_seq(v: &[char], p: &[char]) -> (r: Option<usize>)
    requires
        p@.len() > 0,
    ensures
        match r {
            Some(i) => occurs_at(v@, p@, i as int) && occurrence(v@, p@) == Some(i as int),
            None => occurrence(v@, p@) is None,
        },
{
    reveal(occurrence);
    let mut i: usize = 0;
    while i < v.len() && v.len() - i >= p.len()
        invariant
            p@.len() > 0,
            forall|j: int| 0 <= j < i ==> !occurs_at(v@, p@, j),
        decreases v@.len() - i,
    {
        let window = sub_chars(v, i, i + p.len());
        if crate::text::vec_starts_with(&window, p) {
            proof {
                assert(window@.subrange(0, p@.len() as int) =~= window@);
                assert(occurs_at(v@, p@, i as int));
                let k = choose|k: int|
                    occurs_at(v@, p@, k) && forall|j: int| 0 <= j < k ==> !occurs_at(v@, p@, j);
                if k < i {
                    assert(!occurs_at(v@, p@, k));
                }
                if k > i {
                    assert(!occurs_at(v@, p@, i as int));
                }
                assert(seq_contains_seq(v@, p@));
                reveal(occurrence);
            }
            return Some(i);
        } else {
            proof {
                if occurs_at(v@, p@, i as int) {
                    assert(window@.subrange(0, p@.len() as int) =~= window@);
                }
            }
        }
        i = i + 1;
    }
    proof {
        reveal(occurrence);
        assert forall|j: int| !occurs_at(v@, p@, j) by {
            if 0 <= j && j < i {
            }
        }
    }
    None
}

/// The second piece of `v` split at `sep`.
fn second_piece_of(v: &[char], sep: &[char]) -> (r: Option<Vec<char>>)
    requires
        sep@.len() > 0,
    ensures
        match r {
            Some(b) => second_piece(v@, sep@) == Some(b@),
            None => second_piece(v@, sep@) is None,
        },
{
    let i = match find_seq(v, sep) {
        Some(i) => i,
        None => {
            return None;
        },
    };
    let n = v.len();
    assert(occurs_at(v@, sep@, i as int));
    assert(i + sep@.len() <= n);
    let rest = sub_chars(v, i + sep.len(), n);
    match find_seq(&rest, sep) {
        Some(j) => Some(sub_chars(&rest, 0, j)),
        None => Some(rest),
    }
}

/// The body of an HTTP request, if it has a blank line.
pub fn http_body(request: &str) -> (r: Option<String>)
    ensures
        opt_text(r) == http_body_of(request@),
{
    let chars = chars_of(request);
    let sep = chars_of("\r\n\r\n");
    proof {
        reveal_strlit("\r\n\r\n");
    }
    match second_piece_of(&chars, &sep) {
        Some(b) => Some(string_of(&b)),
        None => None,
    }
}

/// The text of a demo report's list: one ``- `item` `` line per item.
pub open spec fn bullet_lines(items: Seq<Seq<char>>) -> Seq<char>
    decreases items.len(),
{
    if items.len() == 0 {
        Seq::empty()
    } else if items.len() == 1 {
        "- `"@ + items[0] + "`"@
    } else {
        bullet_lines(items.drop_last()) + "\n"@ + ("- `"@ + items.last() + "`"@)
    }
}

/// The list lines of a demo report.
pub fn bullets(items: &[String]) -> (r: String)
    ensures
        r@ == bullet_lines(texts(items@)),
{
    let ghost t = texts(items@);
    let mut out = String::new();
    let mut i: usize = 0;
    while i < items.len()
        invariant
            t == texts(items@),
            i <= items@.len(),
            out@ == bullet_lines(t.take(i as int)),
        decreases items@.len() - i,
    {
        assert(t.take(i + 1).drop_last() =~= t.take(i as int));
        if i > 0 {
            out.append("\n");
        }
        let ghost before = out@;
        out.append("- `");
        out.append(items[i].as_str());
        out.append("`");
        proof {
            if i > 0 {
                assert(out@ =~= bullet_lines(t.take(i as int)) + "\n"@ + ("- `"@ + t[i as int]
                    + "`"@));
            } else {
                assert(before == Seq::<char>::empty());
                assert(out@ =~= "- `"@ + t[0] + "`"@);
            }
        }
        i = i + 1;
    }
    assert(t.take(items@.len() as int) =~= t);
    out
}

/// `true` or `false`, as `format!` writes a boolean.
pub open spec fn bool_text(b: bool) -> Seq<char> {
    if b {
        "true"@
    } else {
        "false"@
    }
}

/// What the demo found, as the report shows it.
#[derive(Debug, Clone, PartialEq, Eq)]
pub struct DemoFindings {
    pub transport: String,
    pub provider: String,
    pub self_revision_write_path: String,
    pub status: String,
    pub runtime_hooks: Vec<String>,
    pub gate_before_blocked: bool,
    pub handled_conflicts_before_hints: i64,
    pub handled_conflicts_after_hints: i64,
    pub commitments: Vec<String>,
}

/// The Markdown report of the demo.
pub open spec fn report_text(f: DemoFindings) -> Seq<char> {
    "# Self-Revision Demo Report\n\n## Environment\n\n- transport: `"@ + f.transport@
        + "`\n- provider: `"@ + f.provider@ + "`\n- durable write path: `"@
        + f.self_revision_write_path@ + "`\n- status: `"@ + f.status@
        + "`\n\n## Runtime Hooks\n\n"@ + bullet_lines(texts(f.runtime_hooks@))
        + "\n\n## Timeline\n\n- gate before update blocked: `"@ + bool_text(
        f.gate_before_blocked,
    ) + "`\n- handled conflict rows before explicit hints: `"@ + signed_decimal(
        f.handled_conflicts_before_hints as int,
    ) + "`\n- handled conflict rows after explicit hints: `"@ + signed_decimal(
        f.handled_conflicts_after_hints as int,
    ) + "`\n\n## Current Commitments\n\n"@ + bullet_lines(texts(f.commitments@)) + "\n"@
}

/// The Markdown report of the demo.
pub fn render_report(findings: &DemoFindings) -> (r: String)
    ensures
        r@ == report_text(*findings),
{
    let mut r = owned("# Self-Revision Demo Report\n\n## Environment\n\n- transport: `");
    r.append(findings.transport.as_str());
    r.append("`\n- provider: `");
    r.append(findings.provider.as_str());
    r.append("`\n- durable write path: `");
    r.append(findings.self_revision_write_path.as_str());
    r.append("`\n- status: `");
    r.append(findings.status.as_str());
    r.append("`\n\n## Runtime Hooks\n\n");
    r.append(bullets(&findings.runtime_hooks).as_str());
    r.append("\n\n## Timeline\n\n- gate before update blocked: `");
    r.append(if findings.gate_before_blocked {
        "true"
    } else {
        "false"
    });
    r.append("`\n- handled conflict rows before explicit hints: `");
    r.append(decimal_i64(findings.handled_conflicts_before_hints).as_str());
    r.append("`\n- handled conflict rows after explicit hints: `");
    r.append(decimal_i64(findings.handled_conflicts_after_hints).as_str());
    r.append("`\n\n## Current Commitments\n\n");
    r.append(bullets(&findings.commitments).as_str());
    r.append("\n");
    r
}

/// The configuration file of the demo: stdio transport, the given database,
/// and the stub as its OpenAI-compatible model.
pub fn demo_config(database_url: &str, stub_base_url: &str) -> (r: String)
    ensures
        r@ == "transport = \"stdio\"\ndatabase_url = \""@ + database_url@
            + "\"\n\n[model]\nprovider = \"openai-compatible\"\n\n[model.openai_compatible]\nbase_url = \""@
            + stub_base_url@
            + "\"\napi_key = \"demo-local-key\"\nmodel = \"demo-local\"\ntimeout_ms = 30000\n"@,
{
    let mut r = owned("transport = \"stdio\"\ndatabase_url = \"");
    r.append(database_url);
    r.append(
        "\"\n\n[model]\nprovider = \"openai-compatible\"\n\n[model.openai_compatible]\nbase_url = \"",
    );
    r.append(stub_base_url);
    r.append("\"\napi_key = \"demo-local-key\"\nmodel = \"demo-local\"\ntimeout_ms = 30000\n");
    r
}

/// The demo's arguments: where to write its output and which server binary
/// to run, each given with the flag before it.
#[derive(Debug, Clone, PartialEq, Eq)]
pub struct DemoArgs {
    pub output_dir: Option<String>,
    pub server_bin: Option<String>,
}

/// The demo's arguments read from the left: `--output-dir` and
/// `--server-bin` each take the next argument (none where the list ends),
/// the later of a repeated flag winning; any other argument is refused.
pub open spec fn demo_args_of(args: Seq<Seq<char>>, acc: (Option<Seq<char>>, Option<Seq<char>>)) -> Result<
    (Option<Seq<char>>, Option<Seq<char>>),
    Seq<char>,
>
    decreases args.len(),
{
    if args.len() == 0 {
        Ok(acc)
    } else {
        let next = if args.len() >= 2 {
            Some(args[1])
        } else {
            None
        };
        let rest = if args.len() >= 2 {
            args.subrange(2, args.len() as int)
        } else {
            Seq::empty()
        };
        if args[0] == "--output-dir"@ {
            demo_args_of(rest, (next, acc.1))
        } else if args[0] == "--server-bin"@ {
            demo_args_of(rest, (acc.0, next))
        } else {
            Err("unknown argument: "@ + args[0])
        }
    }
}

/// Reads the demo's arguments.
pub fn parse_demo_args(args: &[String]) -> (r: Result<DemoArgs, String>)
    ensures
        match demo_args_of(texts(args@), (None, None)) {
            Ok((o, s)) => (r matches Ok(a) && opt_text(a.output_dir) == o && opt_text(a.server_bin)
                == s),
            Err(m) => (r matches Err(e) && e@ == m),
        },
{
    let ghost all = texts(args@);
    let mut output_dir: Option<String> = None;
    let mut server_bin: Option<String> = None;
    let mut i: usize = 0;
    assert(all.subrange(0, all.len() as int) =~= all);
    while i < args.len()
        invariant
            all == texts(args@),
            i <= args@.len(),
            demo_args_of(all, (None, None)) == demo_args_of(
                all.subrange(i as int, all.len() as int),
                (opt_text(output_dir), opt_text(server_bin)),
            ),
        decreases args@.len() - i,
    {
        let ghost rest = all.subrange(i as int, all.len() as int);
        assert(rest[0] == args@[i as int]@);
        let next: Option<String> = if i + 1 < args.len() {
            assert(rest[1] == args@[i + 1]@);
            Some(args[i + 1].clone())
        } else {
            None
        };
        if i + 1 < args.len() {
            assert(rest.subrange(2, rest.len() as int) =~= all.subrange(i + 2, all.len() as int));
        } else {
            assert(all.subrange(i + 1, all.len() as int) =~= Seq::<Seq<char>>::empty());
        }
        if crate::text::same_text(args[i].as_str(), "--output-dir") {
            output_dir = next;
        } else if crate::text::same_text(args[i].as_str(), "--server-bin") {
            server_bin = next;
        } else {
            let mut m = owned("unknown argument: ");
            m.append(args[i].as_str());
            return Err(m);
        }
        i = if i + 1 < args.len() {
            i + 2
        } else {
            args.len()
        };
    }
    Ok(DemoArgs { output_dir, server_bin })
}

} // verus!
