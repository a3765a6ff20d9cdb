//! JSON documents, read and written by `serde_json`.
//!
//! A `serde_json::Value` is opaque here. What it holds is spoken of through
//! `value_doc`, its document, and every call into `serde_json` goes through
//! one of the functions below. Their contracts are not proved: they say what
//! the source of `serde_json` shows. The crate is built with its feature
//! `preserve_order`, so an object keeps its members in the order in which
//! they were put in.

use vstd::prelude::*;

verus! {

/// `serde_json::Value`: any JSON value.
#[verifier::external_type_specification]
#[verifier::external_body]
pub struct ExValue(serde_json::Value);

/// `serde_json::Error`, why a text could not be read or a value not written.
#[verifier::external_type_specification]
#[verifier::external_body]
pub struct ExJsonError(serde_json::Error);

/// A JSON document, as far as this library looks into one: strings, arrays
/// and objects. The members of an object stand in the order in which the
/// object holds them, and no two of them have the same key. `null`, the
/// booleans and the numbers are all `Other`.
pub enum JsonDoc {
    Text(Seq<char>),
    List(Seq<JsonDoc>),
    Record(Seq<(Seq<char>, JsonDoc)>),
    Other,
}

/// The document that a value holds.
pub uninterp spec fn value_doc(value: serde_json::Value) -> JsonDoc;

/// The document that `serde_json::from_str` reads from a text, if it reads
/// one.
pub uninterp spec fn json_parse(text: Seq<char>) -> Option<JsonDoc>;

/// The text that `serde_json::to_string_pretty` writes for a document of
/// strings, arrays and objects, if it writes one.
pub uninterp spec fn json_text(doc: JsonDoc) -> Option<Seq<char>>;

/// The documents of a row of values.
pub open spec fn value_docs(values: Seq<serde_json::Value>) -> Seq<JsonDoc> {
    values.map_values(|value: serde_json::Value| value_doc(value))
}

/// The keys and documents of a row of members.
pub open spec fn member_docs(members: Seq<(String, serde_json::Value)>) -> Seq<
    (Seq<char>, JsonDoc),
> {
    members.map_values(|member: (String, serde_json::Value)| (member.0@, value_doc(member.1)))
}

/// No two members have the same key.
pub open spec fn distinct_keys(members: Seq<(String, serde_json::Value)>) -> bool {
    forall|i: int, j: int|
        0 <= i < j < members.len() ==> (#[trigger] members[i]).0@ != (#[trigger] members[j]).0@
}

/// The first of the members with the given key.
pub open spec fn find(members: Seq<(Seq<char>, JsonDoc)>, key: Seq<char>) -> Option<JsonDoc>
    decreases members.len(),
{
    if members.len() == 0 {
        None
    } else if members.first().0 == key {
        Some(members.first().1)
    } else {
        find(members.drop_first(), key)
    }
}

/// The member of an object with the given key. Anything but an object has no
/// members.
pub open spec fn member(doc: JsonDoc, key: Seq<char>) -> Option<JsonDoc> {
    match doc {
        JsonDoc::Record(members) => find(members, key),
        _ => None,
    }
}

/// The document holds strings, arrays and objects only, at every depth.
pub open spec fn textual(doc: JsonDoc) -> bool
    decreases doc,
{
    match doc {
        JsonDoc::Text(_) => true,
        JsonDoc::List(items) => forall|i: int|
            0 <= i < items.len() ==> textual(#[trigger] items[i]),
        JsonDoc::Record(members) => forall|i: int|
            0 <= i < members.len() ==> textual((#[trigger] members[i]).1),
        JsonDoc::Other => false,
    }
}

/// `serde_json::from_str`, reading a `Value`. Whether it reads one, and which
/// document that value holds, depends on the text alone.
#[verifier::external_body]
pub(crate) fn parse_value(text: &str) -> (result: Result<serde_json::Value, serde_json::Error>)
    ensures
        match result {
            Ok(value) => json_parse(text@) == Some(value_doc(value)),
            Err(_) => json_parse(text@) is None,
        },
{
    serde_json::from_str::<serde_json::Value>(text)
}

/// `serde_json::to_string_pretty` of a `Value`. Whether it writes a text, and
/// which, depends on the document alone. `JsonDoc` does not tell `null`, the
/// booleans and the numbers apart, so this is said of documents without them
/// only.
#[verifier::external_body]
pub(crate) fn print_value(value: &serde_json::Value) -> (result: Result<
    String,
    serde_json::Error,
>)
    requires
        textual(value_doc(*value)),
    ensures
        match result {
            Ok(text) => json_text(value_doc(*value)) == Some(text@),
            Err(_) => json_text(value_doc(*value)) is None,
        },
{
    serde_json::to_string_pretty(value)
}

/// `Value::from` a `&str`: the JSON string with these characters.
#[verifier::external_body]
pub(crate) fn value_from_text(text: &str) -> (value: serde_json::Value)
    ensures
        value_doc(value) == JsonDoc::Text(text@),
{
    serde_json::Value::from(text)
}

/// `Value::from` a `Vec<Value>`: the JSON array of these values, in their
/// order.
#[verifier::external_body]
pub(crate) fn value_from_list(items: Vec<serde_json::Value>) -> (value: serde_json::Value)
    ensures
        value_doc(value) == JsonDoc::List(value_docs(items@)),
{
    serde_json::Value::from(items)
}

/// `Value::from_iter` over pairs of key and value: the JSON object with these
/// members. It puts them in one after the other, so with keys that all
/// differ the object holds them in the order given.
#[verifier::external_body]
pub(crate) fn value_from_members(members: Vec<(String, serde_json::Value)>) -> (value:
    serde_json::Value)
    requires
        distinct_keys(members@),
    ensures
        value_doc(value) == JsonDoc::Record(member_docs(members@)),
{
    members.into_iter().collect()
}

/// `Value::get` with a key: the member of an object with that key; nothing
/// where the object has none, or where the value is no object.
#[verifier::external_body]
pub(crate) fn value_member<'a>(value: &'a serde_json::Value, key: &str) -> (found: Option<
    &'a serde_json::Value,
>)
    ensures
        match found {
            Some(m) => member(value_doc(*value), key@) == Some(value_doc(*m)),
            None => member(value_doc(*value), key@) is None,
        },
{
    value.get(key)
}

/// `Value::as_str`: the characters of a JSON string; nothing for any other
/// value.
#[verifier::external_body]
pub(crate) fn value_text<'a>(value: &'a serde_json::Value) -> (text: Option<&'a str>)
    ensures
        match text {
            Some(t) => value_doc(*value) == JsonDoc::Text(t@),
            None => !(value_doc(*value) is Text),
        },
{
    value.as_str()
}

/// `Value::as_array`: the values of a JSON array, in their order; nothing for
/// any other value.
#[verifier::external_body]
pub(crate) fn value_items<'a>(value: &'a serde_json::Value) -> (items: Option<
    &'a Vec<serde_json::Value>,
>)
    ensures
        match items {
            Some(list) => value_doc(*value) == JsonDoc::List(value_docs(list@)),
            None => !(value_doc(*value) is List),
        },
{
    value.as_array()
}

} // verus!
