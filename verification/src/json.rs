//! The JSON library as this crate sees it: opaque documents, the names of
//! what its functions return, and the calls themselves.

use serde_json::Error as JsonFault;
use vstd::prelude::*;

verus! {

#[verifier::external_type_specification]
#[verifier::external_body]
pub struct ExJsonValue(serde_json::Value);

#[verifier::external_type_specification]
#[verifier::external_body]
pub struct ExJsonFault(JsonFault);

#[verifier::external_type_specification]
#[verifier::external_body]
pub struct ExJsonNumber(serde_json::Number);

#[verifier::external_type_specification]
#[verifier::external_body]
#[verifier::reject_recursive_types(K)]
#[verifier::reject_recursive_types(V)]
pub struct ExJsonObject<K, V>(serde_json::Map<K, V>);

/// The untyped wire document.
pub type Json = serde_json::Value;

/// The result of `serde_json::from_str` at `Value` for a text.
pub uninterp spec fn parsed_json(text: Seq<char>) -> Result<Json, JsonFault>;

/// The text that `Display` gives for a `serde_json::Error`.
pub uninterp spec fn fault_text(fault: JsonFault) -> Seq<char>;

/// The entries of a `serde_json::Map`, by key.
pub uninterp spec fn object_fields(object: serde_json::Map<String, Json>) -> Map<Seq<char>, Json>;

/// The entries of an object that has none.
pub open spec fn no_fields() -> Map<Seq<char>, Json> {
    Map::empty()
}

/// The entry of `fields` under `key`, if there is one.
pub open spec fn entry_of(fields: Map<Seq<char>, Json>, key: Seq<char>) -> Option<Json> {
    if fields.dom().contains(key) {
        Some(fields[key])
    } else {
        None
    }
}

/// The document `Value::String` of a text.
pub uninterp spec fn json_text(text: Seq<char>) -> Json;

/// The document that `Value::from` makes of a 32-bit integer.
pub uninterp spec fn json_integer(n: int) -> Json;

/// The document `Value::Number` of a number.
pub uninterp spec fn json_number(n: serde_json::Number) -> Json;

/// The document `Value::Object` of a set of entries.
pub uninterp spec fn json_object(fields: Map<Seq<char>, Json>) -> Json;

/// What `Value::get` finds in a document under a key: the entry of an
/// object, nothing in any other document.
pub uninterp spec fn json_field(document: Json, key: Seq<char>) -> Option<Json>;

/// What `Value::as_str` gives: the characters of a string document.
pub uninterp spec fn json_as_text(document: Json) -> Option<Seq<char>>;

/// What `Value::as_u64` gives: the value of a number document that is an
/// integer from 0 to `u64::MAX`.
pub uninterp spec fn json_as_natural(document: Json) -> Option<u64>;

/// What `Value::as_array` gives: the items of an array document.
pub uninterp spec fn json_as_items(document: Json) -> Option<Seq<Json>>;

/// What `Value::is_null` gives.
pub uninterp spec fn json_is_null(document: Json) -> bool;

/// Calls `serde_json::from_str::<Value>`. The contract claims only that
/// the outcome is determined by the characters of the text.
#[verifier::external_body]
pub(crate) fn parse_json(text: &str) -> (r: Result<Json, JsonFault>)
    ensures
        r == parsed_json(text@),
{
    serde_json::from_str::<Json>(text)
}

/// Calls `to_string` on a `serde_json::Error`. The contract claims only
/// that the text is determined by the error.
#[verifier::external_body]
pub(crate) fn describe_fault(fault: &JsonFault) -> (r: String)
    ensures
        r@ == fault_text(*fault),
{
    fault.to_string()
}

/// Calls `serde_json::Map::new`, which makes a map without entries.
#[verifier::external_body]
pub(crate) fn new_object() -> (r: serde_json::Map<String, Json>)
    ensures
        object_fields(r) == no_fields(),
{
    serde_json::Map::new()
}

/// Calls `serde_json::Map::insert`, which binds the key to the value and
/// drops what the key was bound to before; the other entries stay.
#[verifier::external_body]
pub(crate) fn put_field(entries: &mut serde_json::Map<String, Json>, key: &str, value: Json)
    ensures
        object_fields(*final(entries)) == object_fields(*old(entries)).insert(key@, value),
{
    entries.insert(key.to_owned(), value);
}

/// Calls `Value::from` on a string slice, which gives `Value::String` of
/// the same characters.
#[verifier::external_body]
pub(crate) fn text_value(text: &str) -> (r: Json)
    ensures
        r == json_text(text@),
{
    Json::from(text)
}

/// Calls `Value::from` on an `i32`, which gives the JSON number of that
/// integer.
#[verifier::external_body]
pub(crate) fn integer_value(n: i32) -> (r: Json)
    ensures
        r == json_integer(n as int),
{
    Json::from(n)
}

/// Builds `Value::Number` around a copy of the number.
#[verifier::external_body]
pub(crate) fn number_value(n: &serde_json::Number) -> (r: Json)
    ensures
        r == json_number(*n),
{
    Json::Number(n.clone())
}

/// Builds `Value::Object` around the map. `Value::get` then finds in the
/// document exactly the entries of the map.
#[verifier::external_body]
pub(crate) fn object_value(object: serde_json::Map<String, Json>) -> (r: Json)
    ensures
        r == json_object(object_fields(object)),
        forall|key: Seq<char>| #[trigger]
            json_field(r, key) == entry_of(object_fields(object), key),
{
    Json::Object(object)
}

/// Calls `Value::get` with a string key. The contract names what is
/// found; the reference points into the document.
#[verifier::external_body]
pub(crate) fn field_in<'a>(document: &'a Json, key: &str) -> (r: Option<&'a Json>)
    ensures
        r is Some <==> json_field(*document, key@) is Some,
        r is Some ==> *r.unwrap() == json_field(*document, key@).unwrap(),
{
    document.get(key)
}

/// Calls `Value::as_str`.
#[verifier::external_body]
pub(crate) fn text_in<'a>(document: &'a Json) -> (r: Option<&'a str>)
    ensures
        r is Some <==> json_as_text(*document) is Some,
        r is Some ==> r.unwrap()@ == json_as_text(*document).unwrap(),
{
    document.as_str()
}

/// Calls `Value::as_u64`.
#[verifier::external_body]
pub(crate) fn natural_in(document: &Json) -> (r: Option<u64>)
    ensures
        r == json_as_natural(*document),
{
    document.as_u64()
}

/// Calls `Value::as_array`.
#[verifier::external_body]
pub(crate) fn items_in<'a>(document: &'a Json) -> (r: Option<&'a Vec<Json>>)
    ensures
        r is Some <==> json_as_items(*document) is Some,
        r is Some ==> r.unwrap()@ == json_as_items(*document).unwrap(),
{
    document.as_array()
}

/// Calls `Value::is_null`.
#[verifier::external_body]
pub(crate) fn null_in(document: &Json) -> (r: bool)
    ensures
        r == json_is_null(*document),
{
    document.is_null()
}

} // verus!
