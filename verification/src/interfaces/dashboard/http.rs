//! The dashboard's base path and URL.
use vstd::prelude::*;

use crate::text::{chars_of, concat3, concat_str, string_of};

verus! {

/// The number of trailing `/` characters of `s`.
pub open spec fn trailing_slashes(s: Seq<char>) -> nat
    decreases s.len(),
{
    if s.len() > 0 && s.last() == '/' {
        1 + trailing_slashes(s.drop_last())
    } else {
        0
    }
}

/// A base path without its trailing slashes; the root when nothing is left.
pub open spec fn normalized_path(base_path: Seq<char>) -> Seq<char> {
    let trimmed = base_path.subrange(0, base_path.len() - trailing_slashes(base_path));
    if trimmed.len() == 0 {
        "/"@
    } else {
        trimmed
    }
}

/// `trailing_slashes` counts a suffix of slashes.
proof fn lemma_trailing_slashes(s: Seq<char>)
    ensures
        trailing_slashes(s) <= s.len(),
    decreases s.len(),
{
    if s.len() > 0 && s.last() == '/' {
        lemma_trailing_slashes(s.drop_last());
    }
}

/// The base path the dashboard is served under: trailing slashes removed, the
/// root `/` when nothing is left.
pub fn normalized_base_path(base_path: &str) -> (r: String)
    ensures
        r@ == normalized_path(base_path@),
{
    let chars = chars_of(base_path);
    let mut end: usize = chars.len();
    proof {
        lemma_trailing_slashes(base_path@);
        assert(chars@.subrange(0, end as int) =~= base_path@);
    }
    while end > 0 && chars[end - 1] == '/'
        invariant
            chars@ == base_path@,
            end <= chars@.len(),
            trailing_slashes(base_path@) == (chars@.len() - end) + trailing_slashes(
                chars@.subrange(0, end as int),
            ),
        decreases end,
    {
        let ghost before = chars@.subrange(0, end as int);
        assert(before.drop_last() =~= chars@.subrange(0, end - 1));
        end = end - 1;
    }
    let ghost kept = chars@.subrange(0, end as int);
    assert(trailing_slashes(kept) == 0);
    let mut out: Vec<char> = Vec::new();
    let mut i: usize = 0;
    while i < end
        invariant
            end <= chars@.len(),
            i <= end,
            out@ == chars@.subrange(0, i as int),
        decreases end - i,
    {
        out.push(chars[i]);
        i = i + 1;
    }
    if end == 0 {
        return String::from_str("/");
    }
    string_of(out.as_slice())
}

/// The URL the dashboard is reached at: `http://<address>`, followed by the
/// base path unless it is the root.
pub fn dashboard_base_url(address: &str, base_path: &str) -> (r: String)
    ensures
        r@ == if base_path@ == "/"@ {
            "http://"@ + address@
        } else {
            "http://"@ + address@ + base_path@
        },
{
    if crate::text::same_text(base_path, "/") {
        concat_str("http://", address)
    } else {
        concat3("http://", address, base_path)
    }
}

} // verus!
