//! JSON documents as a tree the library can read: the shape of a parsed
//! `serde_json::Value`, with numbers carried through unread.
use vstd::prelude::*;

verus! {

/// `serde_json::Value`, which the library reads only by converting it to a
/// `JsonTree`.
#[verifier::external_type_specification]
#[verifier::external_body]
pub struct ExJsonValue(serde_json::Value);

/// `serde_json::Number`, carried through unread.
#[verifier::external_type_specification]
#[verifier::external_body]
pub struct ExJsonNumber(serde_json::Number);

/// A JSON document. Object members keep the order in which the parser gave
/// them.
#[derive(Debug, PartialEq)]
pub enum JsonTree {
    Null,
    Bool(bool),
    Number(serde_json::Number),
    Text(String),
    Array(Vec<JsonTree>),
    Object(Vec<(String, JsonTree)>),
}

/// A JSON document as a mathematical value.
pub enum JsonView {
    Null,
    Bool(bool),
    Number(serde_json::Number),
    Text(Seq<char>),
    Array(Seq<JsonView>),
    Object(Seq<(Seq<char>, JsonView)>),
}

/// The mathematical value of a document.
pub open spec fn tree_view(t: JsonTree) -> JsonView
    decreases t,
{
    match t {
        JsonTree::Null => JsonView::Null,
        JsonTree::Bool(b) => JsonView::Bool(b),
        JsonTree::Number(n) => JsonView::Number(n),
        JsonTree::Text(s) => JsonView::Text(s@),
        JsonTree::Array(items) => JsonView::Array(
            Seq::new(
                items.len() as nat,
                |i: int|
                    if 0 <= i < items.len() {
                        tree_view(items[i])
                    } else {
                        JsonView::Null
                    },
            ),
        ),
        JsonTree::Object(members) => JsonView::Object(
            Seq::new(
                members.len() as nat,
                |i: int|
                    if 0 <= i < members.len() {
                        (members[i].0@, tree_view(members[i].1))
                    } else {
                        (Seq::empty(), JsonView::Null)
                    },
            ),
        ),
    }
}

/// `Clone` of `serde_json::Number`, which derives it over a `Copy` field: the
/// copy is the same number.
pub assume_specification[ <serde_json::Number as std::clone::Clone>::clone ](
    number: &serde_json::Number,
) -> (r: serde_json::Number)
    ensures
        r == *number,
;

/// A copy of a document.
#[verifier::loop_isolation(false)]
pub fn copy_tree(t: &JsonTree) -> (r: JsonTree)
    ensures
        tree_view(r) == tree_view(*t),
    decreases t,
{
    match t {
        JsonTree::Null => JsonTree::Null,
        JsonTree::Bool(b) => JsonTree::Bool(*b),
        JsonTree::Number(n) => JsonTree::Number(n.clone()),
        JsonTree::Text(text) => JsonTree::Text(text.clone()),
        JsonTree::Array(items) => {
            let mut out: Vec<JsonTree> = Vec::new();
            let mut i: usize = 0;
            while i < items.len()
                invariant
                    i <= items@.len(),
                    out@.len() == i,
                    forall|k: int| 0 <= k < i ==> tree_view(#[trigger] out@[k]) == tree_view(items@[k]),
                decreases items@.len() - i,
            {
                out.push(copy_tree(&items[i]));
                i = i + 1;
            }
            let r = JsonTree::Array(out);
            proof {
                assert(tree_view(r)->Array_0 =~= tree_view(*t)->Array_0);
            }
            r
        },
        JsonTree::Object(members) => {
            let mut out: Vec<(String, JsonTree)> = Vec::new();
            let mut i: usize = 0;
            while i < members.len()
                invariant
                    i <= members@.len(),
                    out@.len() == i,
                    forall|k: int|
                        0 <= k < i ==> (#[trigger] out@[k]).0@ == members@[k].0@ && tree_view(out@[k].1)
                            == tree_view(members@[k].1),
                decreases members@.len() - i,
            {
                let member = &members[i];
                out.push((member.0.clone(), copy_tree(&member.1)));
                i = i + 1;
            }
            let r = JsonTree::Object(out);
            proof {
                assert(tree_view(r)->Object_0 =~= tree_view(*t)->Object_0);
            }
            r
        },
    }
}

impl Clone for JsonTree {
    fn clone(&self) -> (r: JsonTree)
        ensures
            tree_view(r) == tree_view(*self),
    {
        copy_tree(self)
    }
}

/// What serde_json's parser makes of a text; `None` where the text is not
/// JSON.
pub uninterp spec fn parsed_json(text: Seq<char>) -> Option<JsonView>;

/// The compact text that serde_json writes for a document; `None` where it
/// reports an error.
pub uninterp spec fn written_json(doc: JsonView) -> Option<Seq<char>>;

/// The document that a `serde_json::Value` holds, variant for variant.
#[verifier::external_body]
fn tree_of_value(value: serde_json::Value) -> JsonTree {
    match value {
        serde_json::Value::Null => JsonTree::Null,
        serde_json::Value::Bool(b) => JsonTree::Bool(b),
        serde_json::Value::Number(n) => JsonTree::Number(n),
        serde_json::Value::String(s) => JsonTree::Text(s),
        serde_json::Value::Array(items) => JsonTree::Array(
            items.into_iter().map(tree_of_value).collect(),
        ),
        serde_json::Value::Object(map) => JsonTree::Object(
            map.into_iter().map(|(k, v)| (k, tree_of_value(v))).collect(),
        ),
    }
}

/// The `serde_json::Value` that holds a document, variant for variant.
#[verifier::external_body]
fn value_of_tree(doc: JsonTree) -> serde_json::Value {
    match doc {
        JsonTree::Null => serde_json::Value::Null,
        JsonTree::Bool(b) => serde_json::Value::Bool(b),
        JsonTree::Number(n) => serde_json::Value::Number(n),
        JsonTree::Text(s) => serde_json::Value::String(s),
        JsonTree::Array(items) => serde_json::Value::Array(
            items.into_iter().map(value_of_tree).collect(),
        ),
        JsonTree::Object(members) => serde_json::Value::Object(
            members.into_iter().map(|(k, v)| (k, value_of_tree(v))).collect(),
        ),
    }
}

/// `serde_json::from_str` into a `serde_json::Value`, read as a document.
/// The result is named, not described: `parsed_json` of the text.
#[verifier::external_body]
pub(crate) fn parse_json(text: &str) -> (r: Option<JsonTree>)
    ensures
        match r {
            Some(t) => parsed_json(text@) == Some(tree_view(t)),
            None => parsed_json(text@) is None,
        },
{
    serde_json::from_str::<serde_json::Value>(text).ok().map(tree_of_value)
}

/// `serde_json::to_string` of the `serde_json::Value` that holds the
/// document. The result is named, not described: `written_json` of the
/// document.
#[verifier::external_body]
pub(crate) fn write_json(doc: JsonTree) -> (r: Option<String>)
    ensures
        match r {
            Some(s) => written_json(tree_view(doc)) == Some(s@),
            None => written_json(tree_view(doc)) is None,
        },
{
    serde_json::to_string(&value_of_tree(doc)).ok()
}

} // verus!
