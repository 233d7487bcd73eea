//! Members of JSON payloads.

use vstd::prelude::*;

verus! {

/// The text under a field of the JSON value that `serde_json` reads from bytes: nothing where
/// the bytes are no JSON; within that, nothing where the value is no object, or the field is
/// absent or no text.
pub open spec fn json_text(payload: Seq<u8>, field: Seq<char>) -> Option<Option<Seq<char>>> {
    match json_object(payload) {
        None => None,
        Some(None) => Some(None),
        Some(Some(members)) => Some(
            if members.contains_key(field) {
                text_in(members[field])
            } else {
                None
            },
        ),
    }
}

/// Whether the JSON value that `serde_json` reads from bytes is an object with a field; nothing
/// where the bytes are no JSON.
pub open spec fn json_has(payload: Seq<u8>, field: Seq<char>) -> Option<bool> {
    match json_object(payload) {
        None => None,
        Some(None) => Some(false),
        Some(Some(members)) => Some(members.contains_key(field)),
    }
}

/// What an optional text holds.
pub open spec fn held(value: Option<String>) -> Option<Seq<char>> {
    match value {
        Some(text) => Some(text@),
        None => None,
    }
}

/// What was read under a field: nothing where the bytes are no JSON; within that, nothing where
/// the field is absent or no text.
pub open spec fn read(value: Option<Option<String>>) -> Option<Option<Seq<char>>> {
    match value {
        Some(found) => Some(held(found)),
        None => None,
    }
}

/// What an optional borrowed text says.
pub open spec fn said(value: Option<&str>) -> Option<Seq<char>> {
    match value {
        Some(text) => Some(text@),
        None => None,
    }
}

/// Reads the text under a field of a JSON payload.
pub fn text_field(payload: &[u8], field: &str) -> (result: Option<Option<String>>)
    ensures
        read(result) == json_text(payload@, field@),
{
    match parse_object(payload) {
        Parsed::NotJson => None,
        Parsed::NotObject => Some(None),
        Parsed::Object(object) => Some(member_text(&object, field)),
    }
}

/// Tells whether a JSON payload has a field.
pub fn has_field(payload: &[u8], field: &str) -> (result: Option<bool>)
    ensures
        result == json_has(payload@, field@),
{
    match parse_object(payload) {
        Parsed::NotJson => None,
        Parsed::NotObject => Some(false),
        Parsed::Object(object) => Some(has_member(&object, field)),
    }
}

/// An object of `serde_json`.
#[verifier::external_type_specification]
#[verifier::external_body]
#[verifier::reject_recursive_types(K)]
#[verifier::reject_recursive_types(V)]
pub struct ExObject<K, V>(serde_json::Map<K, V>);

/// A value of `serde_json`.
#[verifier::external_type_specification]
#[verifier::external_body]
pub struct ExValue(serde_json::Value);

/// The members of an object: under each name the JSON text of its value, as `serde_json`
/// writes it without white space.
pub uninterp spec fn members(object: serde_json::Map<String, serde_json::Value>) -> Map<
    Seq<char>,
    Seq<char>,
>;

/// The members of the object that `serde_json` reads from bytes: nothing where they are no
/// JSON; within that, nothing where they are no object.
pub uninterp spec fn json_object(payload: Seq<u8>) -> Option<Option<Map<Seq<char>, Seq<char>>>>;

/// The JSON text that `serde_json` writes for a text.
pub uninterp spec fn json_string(text: Seq<char>) -> Seq<char>;

/// The text whose JSON text this is; nothing where it is no text's.
pub uninterp spec fn text_in(text: Seq<char>) -> Option<Seq<char>>;

/// The members of the object whose JSON text this is; nothing where it is no object's.
pub uninterp spec fn object_in(text: Seq<char>) -> Option<Map<Seq<char>, Seq<char>>>;

/// The JSON text that `serde_json` writes for an object with these members.
pub uninterp spec fn json_of_object(members: Map<Seq<char>, Seq<char>>) -> Seq<char>;

/// What `serde_json` reads from bytes.
pub enum Parsed {
    /// They are no JSON.
    NotJson,
    /// They are JSON, but no object.
    NotObject,
    /// An object.
    Object(serde_json::Map<String, serde_json::Value>),
}

/// Parses `payload` with `serde_json::from_slice` and tells an object from the other values.
/// What is read depends on the bytes alone.
#[verifier::external_body]
pub(crate) fn parse_object(payload: &[u8]) -> (result: Parsed)
    ensures
        (match result {
            Parsed::NotJson => None,
            Parsed::NotObject => Some(None),
            Parsed::Object(object) => Some(Some(members(object))),
        }) == json_object(payload@),
{
    match serde_json::from_slice::<serde_json::Value>(payload) {
        Ok(serde_json::Value::Object(object)) => Parsed::Object(object),
        Ok(_) => Parsed::NotObject,
        Err(_) => Parsed::NotJson,
    }
}

/// Calls `Map::contains_key`. It tells whether there is a member with that name.
#[verifier::external_body]
pub(crate) fn has_member(object: &serde_json::Map<String, serde_json::Value>, field: &str) -> (result:
    bool)
    ensures
        result == members(*object).contains_key(field@),
{
    object.contains_key(field)
}

/// Calls `Map::get` and `Value::as_str`, and copies what they find. A text is found where the
/// member is there and is one; it depends on the JSON text of that member alone.
#[verifier::external_body]
pub(crate) fn member_text(object: &serde_json::Map<String, serde_json::Value>, field: &str) -> (result:
    Option<String>)
    ensures
        held(result) == (if members(*object).contains_key(field@) {
            text_in(members(*object)[field@])
        } else {
            None
        }),
{
    object.get(field).and_then(serde_json::Value::as_str).map(str::to_owned)
}

/// Calls `Map::insert` with a text. The member with that name is set to the text, and no other
/// member changes.
#[verifier::external_body]
pub(crate) fn set_text(object: &mut serde_json::Map<String, serde_json::Value>, field: &str, text: &str)
    ensures
        members(*final(object)) == members(*old(object)).insert(field@, json_string(text@)),
{
    object.insert(field.to_owned(), serde_json::Value::from(text));
}

/// Calls `Map::insert` with an array of one text, which is written in square brackets. The
/// member with that name is set to the array, and no other member changes.
#[verifier::external_body]
pub(crate) fn set_list(object: &mut serde_json::Map<String, serde_json::Value>, field: &str, item: &str)
    ensures
        members(*final(object)) == members(*old(object)).insert(
            field@,
            "["@ + json_string(item@) + "]"@,
        ),
{
    object.insert(field.to_owned(), serde_json::Value::from(vec![item]));
}

/// Calls `Map::get` and `Value::as_object`, and copies what they find. An object is found where
/// the member is there and is one; its members depend on the JSON text of that member alone.
#[verifier::external_body]
pub(crate) fn nested_object(object: &serde_json::Map<String, serde_json::Value>, field: &str) -> (result:
    Option<serde_json::Map<String, serde_json::Value>>)
    ensures
        match result {
            Some(nested) => members(*object).contains_key(field@) && object_in(
                members(*object)[field@],
            ) == Some(members(nested)),
            None => !members(*object).contains_key(field@) || object_in(
                members(*object)[field@],
            ) is None,
        },
{
    object.get(field).and_then(serde_json::Value::as_object).cloned()
}

/// Calls `Map::insert` with an object. The member with that name is set to the object, and no
/// other member changes.
#[verifier::external_body]
pub(crate) fn set_object(
    object: &mut serde_json::Map<String, serde_json::Value>,
    field: &str,
    nested: serde_json::Map<String, serde_json::Value>,
)
    ensures
        members(*final(object)) == members(*old(object)).insert(
            field@,
            json_of_object(members(nested)),
        ),
{
    object.insert(field.to_owned(), serde_json::Value::Object(nested));
}

/// Writes an object with the `Display` form of its `Value`, which is its JSON text without
/// white space. What is written depends on its members alone.
#[verifier::external_body]
pub(crate) fn write_object(object: serde_json::Map<String, serde_json::Value>) -> (result: String)
    ensures
        result@ == json_of_object(members(object)),
{
    serde_json::Value::Object(object).to_string()
}

/// Why an edit of a JSON object failed.
#[derive(Clone, Copy, Debug, PartialEq, Eq, Structural)]
pub enum EditFault {
    /// The bytes are no JSON.
    NotJson,
    /// The value is no object.
    NotObject,
    /// The nested field is absent or no object.
    NoNested,
}

} // verus!
