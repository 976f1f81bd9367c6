//! Order-preserving de-duplication and membership over lists of strings.
use vstd::prelude::*;

use crate::text::{lemma_text_lt_strict, lemma_text_lt_total, same_text, str_lt, text_lt};

verus! {

/// The first occurrences of the elements of `s`, in order.
pub open spec fn dedup<A>(s: Seq<A>) -> Seq<A>
    decreases s.len(),
{
    if s.len() == 0 {
        Seq::empty()
    } else {
        let d = dedup(s.drop_last());
        if d.contains(s.last()) {
            d
        } else {
            d.push(s.last())
        }
    }
}

/// Membership in a sequence with one more element.
pub proof fn lemma_push_contains<A>(t: Seq<A>, a: A, x: A)
    ensures
        t.push(a).contains(x) <==> (t.contains(x) || x == a),
{
    if t.contains(x) {
        let k = choose|k: int| 0 <= k < t.len() && t[k] == x;
        assert(t.push(a)[k] == x);
    }
    if x == a {
        assert(t.push(a)[t.len() as int] == a);
    }
    if t.push(a).contains(x) {
        let k = choose|k: int| 0 <= k < t.push(a).len() && t.push(a)[k] == x;
        if k < t.len() {
            assert(t[k] == x);
        }
    }
}

/// `dedup` keeps exactly the elements of `s`, once each, and is no longer than `s`.
pub proof fn lemma_dedup_props<A>(s: Seq<A>)
    ensures
        dedup(s).no_duplicates(),
        dedup(s).len() <= s.len(),
        forall|x: A| #[trigger] dedup(s).contains(x) <==> s.contains(x),
    decreases s.len(),
{
    if s.len() > 0 {
        let t = s.drop_last();
        let a = s.last();
        lemma_dedup_props(t);
        assert(s =~= t.push(a));
        let d = dedup(t);
        assert forall|x: A| #[trigger] dedup(s).contains(x) <==> s.contains(x) by {
            lemma_push_contains(t, a, x);
            lemma_push_contains(d, a, x);
        }
        if !d.contains(a) {
            assert forall|i: int, j: int|
                0 <= i < d.push(a).len() && 0 <= j < d.push(a).len() && i != j implies d.push(a)[i]
                != d.push(a)[j] by {
                if i < d.len() && j == d.len() {
                    assert(d[i] != a);
                }
                if j < d.len() && i == d.len() {
                    assert(d[j] != a);
                }
            }
        }
    }
}

/// De-duplicating a prefix gives a prefix of the de-duplicated whole.
pub proof fn lemma_dedup_prefix<A>(s: Seq<A>, i: int)
    requires
        0 <= i <= s.len(),
    ensures
        dedup(s.take(i)).is_prefix_of(dedup(s)),
    decreases s.len() - i,
{
    if i < s.len() {
        lemma_dedup_prefix(s, i + 1);
        let a = s.take(i + 1);
        assert(a.drop_last() =~= s.take(i));
        assert(dedup(s.take(i)).is_prefix_of(dedup(a)));
    } else {
        assert(s.take(i) =~= s);
    }
}

/// A sequence without duplicates is its own de-duplication.
pub proof fn lemma_dedup_of_distinct<A>(s: Seq<A>)
    requires
        s.no_duplicates(),
    ensures
        dedup(s) == s,
    decreases s.len(),
{
    if s.len() > 0 {
        let t = s.drop_last();
        assert(t.no_duplicates());
        lemma_dedup_of_distinct(t);
        assert(!t.contains(s.last())) by {
            if t.contains(s.last()) {
                let k = choose|k: int| 0 <= k < t.len() && t[k] == s.last();
                assert(s[k] == s[s.len() - 1]);
            }
        }
        assert(t.push(s.last()) =~= s);
    }
}

/// De-duplication is idempotent.
pub proof fn lemma_dedup_idempotent<A>(s: Seq<A>)
    ensures
        dedup(dedup(s)) == dedup(s),
{
    lemma_dedup_props(s);
    lemma_dedup_of_distinct(dedup(s));
}

/// Whether `values` holds a string equal to `value`.
pub fn contains_text(values: &[String], value: &str) -> (r: bool)
    ensures
        r == values@.map_values(|x: String| x@).contains(value@),
{
    let ghost texts = values@.map_values(|x: String| x@);
    let mut i: usize = 0;
    while i < values.len()
        invariant
            texts == values@.map_values(|x: String| x@),
            i <= values@.len(),
            forall|j: int| 0 <= j < i ==> texts[j] != value@,
        decreases values@.len() - i,
    {
        if same_text(values[i].as_str(), value) {
            assert(texts[i as int] == value@);
            return true;
        }
        i = i + 1;
    }
    false
}

/// The texts of a list of strings.
pub open spec fn texts(v: Seq<String>) -> Seq<Seq<char>> {
    v.map_values(|x: String| x@)
}

/// The text of an optional string.
pub open spec fn opt_text(o: Option<String>) -> Option<Seq<char>> {
    match o {
        Some(s) => Some(s@),
        None => None,
    }
}

/// A copy of an optional string.
pub fn copy_opt_string(o: &Option<String>) -> (r: Option<String>)
    ensures
        opt_text(r) == opt_text(*o),
{
    match o {
        Some(s) => Some(s.clone()),
        None => None,
    }
}

/// The index of the first element of `s` that `t` does not hold.
pub open spec fn first_missing<A>(s: Seq<A>, t: Seq<A>) -> Option<int> {
    if exists|i: int| 0 <= i < s.len() && !t.contains(s[i]) {
        Some(
            choose|i: int|
                0 <= i < s.len() && !t.contains(s[i]) && forall|j: int|
                    0 <= j < i ==> t.contains(#[trigger] s[j]),
        )
    } else {
        None
    }
}

/// The first element of `values` that `allowed` does not hold, found by scanning.
pub fn find_first_missing(values: &[String], allowed: &[String]) -> (r: Option<usize>)
    ensures
        match r {
            Some(i) => i < values@.len() && first_missing(texts(values@), texts(allowed@)) == Some(
                i as int,
            ),
            None => first_missing(texts(values@), texts(allowed@)) is None,
        },
{
    let ghost v = texts(values@);
    let ghost a = texts(allowed@);
    let mut i: usize = 0;
    while i < values.len()
        invariant
            v == texts(values@),
            a == texts(allowed@),
            i <= values@.len(),
            forall|j: int| 0 <= j < i ==> a.contains(#[trigger] v[j]),
        decreases values@.len() - i,
    {
        if !contains_text(allowed, values[i].as_str()) {
            proof {
                let k = i as int;
                assert(0 <= k < v.len() && !a.contains(v[k]));
                let c = choose|c: int|
                    0 <= c < v.len() && !a.contains(v[c]) && forall|j: int|
                        0 <= j < c ==> a.contains(#[trigger] v[j]);
                if c < k {
                    assert(a.contains(v[c]));
                }
                if c > k {
                    assert(a.contains(v[k]));
                }
            }
            return Some(i);
        }
        i = i + 1;
    }
    None
}

/// Distinct elements drawn from a distinct sequence are no more than it.
pub proof fn lemma_distinct_subset_len<A>(s: Seq<A>, t: Seq<A>)
    requires
        s.no_duplicates(),
        t.no_duplicates(),
        forall|x: A| s.contains(x) ==> t.contains(x),
    ensures
        s.len() <= t.len(),
{
    s.unique_seq_to_set();
    t.unique_seq_to_set();
    assert(s.to_set().subset_of(t.to_set()));
    vstd::seq_lib::seq_to_set_is_finite(t);
    vstd::set_lib::lemma_len_subset(s.to_set(), t.to_set());
}

/// Copies of the given strings.
pub fn copy_strings(values: &[String]) -> (r: Vec<String>)
    ensures
        texts(r@) == texts(values@),
{
    let mut r: Vec<String> = Vec::new();
    let mut i: usize = 0;
    while i < values.len()
        invariant
            i <= values@.len(),
            r@.len() == i,
            texts(r@) == texts(values@).take(i as int),
        decreases values@.len() - i,
    {
        let ghost before = r@;
        let copy = values[i].clone();
        assert(copy@ == values@[i as int]@);
        r.push(copy);
        assert(r@ == before.push(copy));
        assert(before.len() == i);
        assert(texts(r@).len() == i + 1);
        assert(texts(r@)[i as int] == copy@);
        assert forall|j: int| 0 <= j < i + 1 implies #[trigger] texts(r@)[j] == texts(values@)[j] by {
            if j < i {
                assert(r@[j] == before[j]);
                assert(texts(before)[j] == texts(values@).take(i as int)[j]);
            }
        }
        assert(texts(r@) =~= texts(values@).take(i + 1));
        i = i + 1;
    }
    assert(texts(values@).take(values@.len() as int) =~= texts(values@));
    r
}

/// The first occurrence of each string, in order (`dedupe` / `dedupe_strings`).
pub fn dedupe_strings(values: Vec<String>) -> (r: Vec<String>)
    ensures
        texts(r@) == dedup(texts(values@)),
{
    let ghost src = texts(values@);
    let mut deduped: Vec<String> = Vec::new();
    let mut i: usize = 0;
    while i < values.len()
        invariant
            src == texts(values@),
            i <= values@.len(),
            texts(deduped@) == dedup(src.take(i as int)),
        decreases values@.len() - i,
    {
        let value = &values[i];
        assert(src.take(i + 1).drop_last() =~= src.take(i as int));
        assert(src.take(i + 1).last() == value@);
        if !contains_text(&deduped, value.as_str()) {
            deduped.push(value.clone());
            assert(texts(deduped@) =~= dedup(src.take(i as int)).push(value@));
        }
        i = i + 1;
    }
    assert(src.take(values@.len() as int) =~= src);
    deduped
}

/// Whether two lists of strings hold the same texts in the same order.
pub fn same_strings(a: &[String], b: &[String]) -> (r: bool)
    ensures
        r == (texts(a@) == texts(b@)),
{
    if a.len() != b.len() {
        proof {
            assert(texts(a@).len() != texts(b@).len());
        }
        return false;
    }
    let mut i: usize = 0;
    while i < a.len()
        invariant
            a@.len() == b@.len(),
            i <= a@.len(),
            forall|j: int| 0 <= j < i ==> #[trigger] texts(a@)[j] == texts(b@)[j],
        decreases a@.len() - i,
    {
        if !same_text(a[i].as_str(), b[i].as_str()) {
            proof {
                assert(texts(a@)[i as int] != texts(b@)[i as int]);
            }
            return false;
        }
        i = i + 1;
    }
    proof {
        assert(texts(a@) =~= texts(b@));
    }
    true
}


/// The elements of `s` that `allowed` holds, in order.
pub open spec fn keep_in<A>(s: Seq<A>, allowed: Seq<A>) -> Seq<A>
    decreases s.len(),
{
    if s.len() == 0 {
        Seq::empty()
    } else {
        let k = keep_in(s.drop_last(), allowed);
        if allowed.contains(s.last()) {
            k.push(s.last())
        } else {
            k
        }
    }
}

/// An element is kept exactly when `s` and `allowed` both hold it.
pub proof fn lemma_keep_in_contains<A>(s: Seq<A>, allowed: Seq<A>)
    ensures
        forall|x: A| #[trigger]
            keep_in(s, allowed).contains(x) <==> (s.contains(x) && allowed.contains(x)),
    decreases s.len(),
{
    if s.len() > 0 {
        let t = s.drop_last();
        let a = s.last();
        lemma_keep_in_contains(t, allowed);
        assert(s =~= t.push(a));
        assert forall|x: A| #[trigger]
            keep_in(s, allowed).contains(x) <==> (s.contains(x) && allowed.contains(x)) by {
            lemma_push_contains(t, a, x);
            lemma_push_contains(keep_in(t, allowed), a, x);
        }
    }
}

/// The strings of `values` that `allowed` holds, in order.
pub fn keep_listed(values: &[String], allowed: &[String]) -> (r: Vec<String>)
    ensures
        texts(r@) == keep_in(texts(values@), texts(allowed@)),
{
    let ghost src = texts(values@);
    let ghost al = texts(allowed@);
    let mut kept: Vec<String> = Vec::new();
    let mut i: usize = 0;
    while i < values.len()
        invariant
            src == texts(values@),
            al == texts(allowed@),
            i <= values@.len(),
            texts(kept@) == keep_in(src.take(i as int), al),
        decreases values@.len() - i,
    {
        let value = &values[i];
        assert(src.take(i + 1).drop_last() =~= src.take(i as int));
        assert(src.take(i + 1).last() == value@);
        if contains_text(allowed, value.as_str()) {
            kept.push(value.clone());
            assert(texts(kept@) =~= keep_in(src.take(i as int), al).push(value@));
        }
        i = i + 1;
    }
    assert(src.take(values@.len() as int) =~= src);
    kept
}

/// The first `limit` elements of `s`, or all of them when it has fewer.
pub open spec fn take_at_most_seq<A>(s: Seq<A>, limit: usize) -> Seq<A> {
    s.take(
        if limit < s.len() {
            limit as int
        } else {
            s.len() as int
        },
    )
}

/// The sequences of `s` one after another.
pub open spec fn concat_all<A>(s: Seq<Seq<A>>) -> Seq<A>
    decreases s.len(),
{
    if s.len() == 0 {
        Seq::empty()
    } else {
        s[0] + concat_all(s.drop_first())
    }
}

/// The contents of a list of vectors.
pub open spec fn vec_views<A>(s: Seq<Vec<A>>) -> Seq<Seq<A>> {
    s.map_values(|v: Vec<A>| v@)
}

/// The vectors of `parts` one after another.
pub fn concat_vecs<A>(parts: Vec<Vec<A>>) -> (r: Vec<A>)
    ensures
        r@ == concat_all(vec_views(parts@)),
{
    let ghost whole = concat_all(vec_views(parts@));
    let mut rest = parts;
    let mut out: Vec<A> = Vec::new();
    assert(out@ + concat_all(vec_views(rest@)) =~= whole);
    while rest.len() > 0
        invariant
            out@ + concat_all(vec_views(rest@)) == whole,
        decreases rest@.len(),
    {
        let ghost before = rest@;
        let mut first = rest.remove(0);
        assert(vec_views(rest@) =~= vec_views(before).drop_first());
        assert(vec_views(before)[0] == first@);
        let ghost tail = concat_all(vec_views(rest@));
        out.append(&mut first);
        assert(out@ + tail =~= whole);
    }
    assert(out@ + concat_all(vec_views(rest@)) =~= out@);
    out
}

/// At most the first `limit` strings of `values`.
pub fn take_at_most(values: Vec<String>, limit: usize) -> (r: Vec<String>)
    ensures
        texts(r@) == texts(values@).take(
            if limit < values@.len() {
                limit as int
            } else {
                values@.len() as int
            },
        ),
{
    let ghost before = values@;
    let mut values = values;
    if limit < values.len() {
        values.truncate(limit);
        assert(texts(values@) =~= texts(before).take(limit as int));
    } else {
        assert(texts(before).take(before.len() as int) =~= texts(before));
    }
    values
}


/// The texts are in strictly increasing order.
pub open spec fn strictly_sorted(s: Seq<Seq<char>>) -> bool {
    forall|i: int, j: int| 0 <= i < j < s.len() ==> text_lt(#[trigger] s[i], #[trigger] s[j])
}

/// `l` lists the texts of `s` once each, in increasing order.
pub open spec fn sorted_listing_of(l: Seq<Seq<char>>, s: Seq<Seq<char>>) -> bool {
    strictly_sorted(l) && forall|x: Seq<char>| #[trigger] l.contains(x) <==> s.contains(x)
}

/// Adds `x` to an increasing list of distinct strings, where it belongs,
/// unless the list holds it already.
pub fn insert_sorted_distinct(list: &mut Vec<String>, x: String)
    requires
        strictly_sorted(texts(old(list)@)),
    ensures
        strictly_sorted(texts(final(list)@)),
        forall|y: Seq<char>|
            #[trigger] texts(final(list)@).contains(y) <==> (texts(old(list)@).contains(y) || y
                == x@),
{
    let ghost before = texts(list@);
    let mut p: usize = 0;
    while p < list.len() && str_lt(list[p].as_str(), x.as_str())
        invariant
            before == texts(list@),
            p <= list@.len(),
            forall|k: int| 0 <= k < p ==> text_lt(#[trigger] before[k], x@),
        decreases list@.len() - p,
    {
        p = p + 1;
    }
    if p < list.len() && same_text(list[p].as_str(), x.as_str()) {
        assert forall|y: Seq<char>| #[trigger] texts(list@).contains(y) <==> (before.contains(y)
            || y == x@) by {
            if y == x@ {
                assert(before[p as int] == y);
            }
        }
        return;
    }
    proof {
        if p < before.len() {
            lemma_text_lt_total(before[p as int], x@);
        }
    }
    let ghost xv = x@;
    list.insert(p, x);
    let ghost after = texts(list@);
    assert(after =~= before.insert(p as int, xv));
    assert forall|i: int, j: int| 0 <= i < j < after.len() implies text_lt(
        #[trigger] after[i],
        #[trigger] after[j],
    ) by {
        if j < p {
            assert(after[i] == before[i] && after[j] == before[j]);
        } else if j == p {
            assert(after[i] == before[i] && after[j] == xv);
        } else if i == p {
            assert(after[i] == xv && after[j] == before[j - 1]);
            if j - 1 > p {
                assert(text_lt(before[p as int], before[j - 1]));
                lemma_text_lt_strict(xv, before[p as int], before[j - 1]);
            }
        } else if i < p {
            assert(after[i] == before[i] && after[j] == before[j - 1]);
            lemma_text_lt_strict(before[i], xv, before[j - 1]);
            if j - 1 > p {
                assert(text_lt(before[p as int], before[j - 1]));
                lemma_text_lt_strict(xv, before[p as int], before[j - 1]);
            }
        } else {
            assert(after[i] == before[i - 1] && after[j] == before[j - 1]);
        }
    }
    assert forall|y: Seq<char>| #[trigger] after.contains(y) <==> (before.contains(y) || y
        == xv) by {
        if after.contains(y) {
            let k = choose|k: int| 0 <= k < after.len() && after[k] == y;
            if k < p {
                assert(before[k] == y);
            } else if k > p {
                assert(before[k - 1] == y);
            }
        }
        if before.contains(y) {
            let k = choose|k: int| 0 <= k < before.len() && before[k] == y;
            if k < p {
                assert(after[k] == y);
            } else {
                assert(after[k + 1] == y);
            }
        }
        if y == xv {
            assert(after[p as int] == y);
        }
    }
}

} // verus!
