//! JSON documents as plain values, read by `serde_json`.

use vstd::prelude::*;

verus! {

/// A JSON value. Numbers other than non-negative integers that fit in 64
/// bits carry no payload: nothing in this crate reads them.
#[derive(Debug, PartialEq, Eq)]
pub enum Json {
    Null,
    Bool(bool),
    Unsigned(u64),
    OtherNumber,
    Text(String),
    List(Vec<Json>),
    Record(Vec<(String, Json)>),
}

#[verifier::external_type_specification]
#[verifier::external_body]
pub struct ExJsonValue(serde_json::Value);

/// The document that `serde_json` reads from a text, or `None` where the
/// text is no JSON document.
pub uninterp spec fn json_document(text: Seq<char>) -> Option<Json>;

/// Moves a `serde_json::Value` into a [`Json`], variant by variant; a number
/// becomes `Unsigned` where `serde_json::Number::as_u64` gives one. Nothing
/// is claimed of the result.
#[verifier::external_body]
fn json_from_value(value: serde_json::Value) -> Json {
    match value {
        serde_json::Value::Null => Json::Null,
        serde_json::Value::Bool(b) => Json::Bool(b),
        serde_json::Value::Number(n) => match n.as_u64() {
            Some(u) => Json::Unsigned(u),
            None => Json::OtherNumber,
        },
        serde_json::Value::String(s) => Json::Text(s),
        serde_json::Value::Array(items) => Json::List(items.into_iter().map(json_from_value).collect()),
        serde_json::Value::Object(map) => Json::Record(
            map.into_iter().map(|(k, v)| (k, json_from_value(v))).collect(),
        ),
    }
}

/// Calls `serde_json::from_str` for a `serde_json::Value`. The contract
/// claims only that the outcome is a function of the text: the same text
/// gives the same document, and `None` exactly when `serde_json` rejects it.
#[verifier::external_body]
pub(crate) fn parse_json(text: &str) -> (doc: Option<Json>)
    ensures
        doc == json_document(text@),
{
    match serde_json::from_str::<serde_json::Value>(text) {
        Ok(value) => Some(json_from_value(value)),
        Err(_) => None,
    }
}

/// The text that `serde_json` prints for a document, or `None` where it
/// prints none.
pub uninterp spec fn json_text(doc: Json) -> Option<Seq<char>>;

/// Moves a [`Json`] into a `serde_json::Value`, variant by variant; a number
/// without payload becomes null, and of two entries with one key the later
/// stays. Nothing is claimed of the result.
#[verifier::external_body]
fn json_to_value(doc: &Json) -> serde_json::Value {
    match doc {
        Json::Null | Json::OtherNumber => serde_json::Value::Null,
        Json::Bool(b) => serde_json::Value::Bool(*b),
        Json::Unsigned(n) => serde_json::Value::Number(serde_json::Number::from(*n)),
        Json::Text(s) => serde_json::Value::String(s.clone()),
        Json::List(items) => serde_json::Value::Array(items.iter().map(json_to_value).collect()),
        Json::Record(entries) => serde_json::Value::Object(
            entries.iter().map(|e| (e.0.clone(), json_to_value(&e.1))).collect(),
        ),
    }
}

/// Calls `serde_json::to_string` on the document. The contract claims that
/// the outcome is a function of the document, and that there is one: the
/// printer of `serde_json` fails only where its writer does or where a value
/// refuses to be printed, and here the writer is a vector and the value a
/// `serde_json::Value`, which never refuses.
#[verifier::external_body]
pub(crate) fn print_json(doc: &Json) -> (text: Option<String>)
    ensures
        crate::json::text_view(text) == json_text(*doc),
        text is Some,
{
    serde_json::to_string(&json_to_value(doc)).ok()
}

/// The characters of an optional text.
pub open spec fn text_view(text: Option<String>) -> Option<Seq<char>> {
    match text {
        Some(t) => Some(t@),
        None => None,
    }
}

/// The value stored under `key` in the entries of a record: that of the
/// first entry with this key.
pub open spec fn member(entries: Seq<(String, Json)>, key: Seq<char>) -> Option<Json>
    decreases entries.len(),
{
    if entries.len() == 0 {
        None
    } else if entries[0].0@ == key {
        Some(entries[0].1)
    } else {
        member(entries.drop_first(), key)
    }
}

/// Looks `key` up in the entries of a record.
pub fn get_member<'a>(entries: &'a Vec<(String, Json)>, key: &str) -> (found: Option<&'a Json>)
    ensures
        match found {
            Some(value) => member(entries@, key@) == Some(*value),
            None => member(entries@, key@) is None,
        },
{
    let n = entries.len();
    let mut i: usize = 0;
    assert(entries@.subrange(0, n as int) =~= entries@);
    while i < n
        invariant
            i <= n,
            n == entries@.len(),
            member(entries@, key@) == member(entries@.subrange(i as int, n as int), key@),
        decreases n - i,
    {
        if crate::text::same_text(entries[i].0.as_str(), key) {
            return Some(&entries[i].1);
        }
        assert(entries@.subrange(i as int, n as int).drop_first() =~= entries@.subrange(
            i + 1,
            n as int,
        ));
        i += 1;
    }
    None
}

} // verus!
