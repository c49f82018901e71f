//! JSON documents as trees of plain values. `serde_json` reads a tree from
//! text and writes one as text; what a tree means is decided elsewhere.

use crate::views::result_view;
use vstd::prelude::*;

verus! {

/// `serde_json::Value`, declared so that it can be named. Nothing is known
/// of a value of it: it is converted to and from [`Json`] and not looked into.
#[verifier::external_type_specification]
#[verifier::external_body]
pub struct ExValue(serde_json::Value);

/// A JSON document.
#[derive(Debug, PartialEq, Eq)]
pub enum Json {
    Null,
    Bool(bool),
    /// A number, with its value where it is an integer that fits `i64`.
    Number(Option<i64>),
    Text(String),
    Array(Vec<Json>),
    /// The members of an object, in document order.
    Object(Vec<(String, Json)>),
}

/// A JSON document as a mathematical value.
pub enum JsonValue {
    Null,
    Bool(bool),
    Number(Option<i64>),
    Text(Seq<char>),
    Array(Seq<JsonValue>),
    Object(Seq<(Seq<char>, JsonValue)>),
}

/// What a tree holds, node for node.
pub open spec fn tree_view(tree: Json) -> JsonValue
    decreases tree,
{
    match tree {
        Json::Null => JsonValue::Null,
        Json::Bool(b) => JsonValue::Bool(b),
        Json::Number(n) => JsonValue::Number(n),
        Json::Text(s) => JsonValue::Text(s@),
        Json::Array(items) => JsonValue::Array(
            Seq::new(
                items@.len(),
                |i: int|
                    if 0 <= i < items@.len() {
                        tree_view(items@[i])
                    } else {
                        JsonValue::Null
                    },
            ),
        ),
        Json::Object(members) => JsonValue::Object(
            Seq::new(
                members@.len(),
                |i: int|
                    if 0 <= i < members@.len() {
                        (members@[i].0@, tree_view(members@[i].1))
                    } else {
                        (Seq::empty(), JsonValue::Null)
                    },
            ),
        ),
    }
}

impl View for Json {
    type V = JsonValue;

    open spec fn view(&self) -> JsonValue {
        tree_view(*self)
    }
}

impl DeepView for Json {
    type V = JsonValue;

    open spec fn deep_view(&self) -> JsonValue {
        self.view()
    }
}

/// What `serde_json::from_str` reads from a text: the document, or the
/// message of the error that says why the text is none.
pub uninterp spec fn json_document(text: Seq<char>) -> Result<JsonValue, Seq<char>>;

/// What `serde_json::to_string` writes for a document: its compact text, or
/// the message of the error that it gave.
pub uninterp spec fn json_text(document: JsonValue) -> Result<Seq<char>, Seq<char>>;

/// The value of the first member of `members` from position `from` on that
/// has the key `key`.
pub open spec fn find_member(
    members: Seq<(Seq<char>, JsonValue)>,
    key: Seq<char>,
    from: int,
) -> Option<JsonValue>
    decreases members.len() - from,
{
    if from < 0 || from >= members.len() {
        None
    } else if members[from].0 == key {
        Some(members[from].1)
    } else {
        find_member(members, key, from + 1)
    }
}

/// The value of the first member with the key `key`.
pub open spec fn member(members: Seq<(Seq<char>, JsonValue)>, key: Seq<char>) -> Option<JsonValue> {
    find_member(members, key, 0)
}

/// Whether a document is nested no deeper than `depth`: a document that is
/// neither an array nor an object is nested within 0.
pub open spec fn nested_within(document: JsonValue, depth: nat) -> bool
    decreases depth,
{
    match document {
        JsonValue::Array(items) => depth > 0 && forall|i: int|
            0 <= i < items.len() ==> nested_within(#[trigger] items[i], (depth - 1) as nat),
        JsonValue::Object(members) => depth > 0 && forall|i: int|
            0 <= i < members.len() ==> nested_within((#[trigger] members[i]).1, (depth - 1) as nat),
        _ => true,
    }
}

/// Nesting within a depth is nesting within every greater depth.
pub proof fn lemma_nested_within_more(document: JsonValue, depth: nat, more: nat)
    requires
        nested_within(document, depth),
        depth <= more,
    ensures
        nested_within(document, more),
    decreases depth,
{
    match document {
        JsonValue::Array(items) => {
            assert forall|i: int| 0 <= i < items.len() implies nested_within(
                #[trigger] items[i],
                (more - 1) as nat,
            ) by {
                lemma_nested_within_more(items[i], (depth - 1) as nat, (more - 1) as nat);
            }
        },
        JsonValue::Object(members) => {
            assert forall|i: int| 0 <= i < members.len() implies nested_within(
                (#[trigger] members[i]).1,
                (more - 1) as nat,
            ) by {
                lemma_nested_within_more(members[i].1, (depth - 1) as nat, (more - 1) as nat);
            }
        },
        _ => {},
    }
}

/// The deepest nesting that is handed to `serde_json` for writing. Its
/// writer calls itself once for each level.
pub const WRITE_DEPTH: usize = 128;

/// A `serde_json::Value` as a tree, node for node. Trusted, and part of
/// [`read_document`]: it converts that function's result and is called
/// nowhere else.
#[verifier::external_body]
fn tree_of(value: serde_json::Value) -> Json {
    match value {
        serde_json::Value::Null => Json::Null,
        serde_json::Value::Bool(b) => Json::Bool(b),
        serde_json::Value::Number(n) => Json::Number(n.as_i64()),
        serde_json::Value::String(s) => Json::Text(s),
        serde_json::Value::Array(items) => Json::Array(items.into_iter().map(tree_of).collect()),
        serde_json::Value::Object(members) => Json::Object(
            members.into_iter().map(|(k, v)| (k, tree_of(v))).collect(),
        ),
    }
}

/// A tree as a `serde_json::Value`, node for node. Trusted, and part of
/// [`write_document`]: it converts that function's argument and is called
/// nowhere else.
#[verifier::external_body]
fn value_of(tree: &Json) -> serde_json::Value {
    match tree {
        Json::Null => serde_json::Value::Null,
        Json::Bool(b) => serde_json::Value::from(*b),
        Json::Number(n) => serde_json::Value::from(*n),
        Json::Text(s) => serde_json::Value::from(s.as_str()),
        Json::Array(items) => items.iter().map(value_of).collect(),
        Json::Object(members) => members.iter().map(|(k, v)| (k.clone(), value_of(v))).collect(),
    }
}

/// Calls `serde_json::from_str` for a `serde_json::Value`. Trusted: the result
/// is what [`json_document`] names for the text.
#[verifier::external_body]
pub(crate) fn read_document(text: &str) -> (parsed: Result<Json, String>)
    ensures
        result_view(parsed) == json_document(text@),
{
    match serde_json::from_str::<serde_json::Value>(text) {
        Ok(value) => Ok(tree_of(value)),
        Err(e) => Err(e.to_string()),
    }
}

/// Calls `serde_json::to_string` on the `serde_json::Value` of a tree that
/// is nested no deeper than [`WRITE_DEPTH`]. Trusted: the result is what
/// [`json_text`] names for the tree.
#[verifier::external_body]
pub(crate) fn write_document(document: &Json) -> (written: Result<String, String>)
    requires
        nested_within(document@, WRITE_DEPTH as nat),
    ensures
        result_view(written) == json_text(document@),
{
    match serde_json::to_string(&value_of(document)) {
        Ok(text) => Ok(text),
        Err(e) => Err(e.to_string()),
    }
}

/// The members of an object, viewed one by one.
pub open spec fn members_view(members: Seq<(String, Json)>) -> Seq<(Seq<char>, JsonValue)> {
    Seq::new(members.len(), |i: int| (members[i].0@, members[i].1@))
}

/// The items of an array, viewed one by one.
pub open spec fn items_view(items: Seq<Json>) -> Seq<JsonValue> {
    Seq::new(items.len(), |i: int| items[i]@)
}

/// An object's view holds the views of its members.
pub proof fn lemma_object_view(members: Vec<(String, Json)>)
    ensures
        Json::Object(members)@ == JsonValue::Object(members_view(members@)),
{
    assert(Json::Object(members)@->Object_0 =~= members_view(members@));
}

/// An array's view holds the views of its items.
pub proof fn lemma_array_view(items: Vec<Json>)
    ensures
        Json::Array(items)@ == JsonValue::Array(items_view(items@)),
{
    assert(Json::Array(items)@->Array_0 =~= items_view(items@));
}

/// The first member of an object that has the key `key`.
pub fn get_member<'a>(members: &'a Vec<(String, Json)>, key: &str) -> (found: Option<&'a Json>)
    ensures
        (match found {
            Some(value) => member(members_view(members@), key@) == Some(value@),
            None => member(members_view(members@), key@) is None,
        }),
{
    let wanted = key.to_owned();
    let ghost all = members_view(members@);
    let mut i: usize = 0;
    while i < members.len()
        invariant
            i <= members.len(),
            wanted@ == key@,
            all == members_view(members@),
            member(all, key@) == find_member(all, key@, i as int),
        decreases members.len() - i,
    {
        if members[i].0 == wanted {
            return Some(&members[i].1);
        }
        i += 1;
    }
    None
}

} // verus!
