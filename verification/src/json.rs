//! The JSON documents the library reads and writes, parsed and printed by
//! `serde_json`: the string members it looks up, the compact text of a
//! document, and the small objects it sends.
use vstd::prelude::*;

verus! {

/// The parse of the JSON bytes `bytes`: the string member `field` of the
/// document (`None` when the document is no object, has no such member or
/// the member is no string), or the text of the parse error.
pub uninterp spec fn json_str_member(bytes: Seq<u8>, field: Seq<char>) -> Result<
    Option<Seq<char>>,
    Seq<char>,
>;

/// The compact JSON text of the document that `bytes` parse to, or the text
/// of the parse error.
pub uninterp spec fn json_compact(bytes: Seq<u8>) -> Result<Seq<char>, Seq<char>>;

/// The parse of the JSON text `text`: its member `field`, as `(true, s)`
/// when it is the string `s` and as `(false, t)` with its compact JSON text
/// `t` otherwise (`None` when the document is no object or has no such
/// member), or the text of the parse error.
pub uninterp spec fn json_text_member(text: Seq<char>, field: Seq<char>) -> Result<
    Option<(bool, Seq<char>)>,
    Seq<char>,
>;

/// The JSON bytes of an object whose members are the given strings.
pub uninterp spec fn json_string_object(members: Seq<(Seq<char>, Seq<char>)>) -> Seq<u8>;

/// The JSON bytes of an object with the one boolean member `field`.
pub uninterp spec fn json_flag_object(field: Seq<char>, value: bool) -> Seq<u8>;

/// A string member read from JSON, seen through its views.
pub open spec fn member_view(r: Result<Option<String>, String>) -> Result<
    Option<Seq<char>>,
    Seq<char>,
> {
    match r {
        Ok(Some(s)) => Ok(Some(s@)),
        Ok(None) => Ok(None),
        Err(e) => Err(e@),
    }
}

/// A member read from JSON text, seen through its views.
pub open spec fn text_member_view(r: Result<Option<(bool, String)>, String>) -> Result<
    Option<(bool, Seq<char>)>,
    Seq<char>,
> {
    match r {
        Ok(Some((is_string, s))) => Ok(Some((is_string, s@))),
        Ok(None) => Ok(None),
        Err(e) => Err(e@),
    }
}

/// A text or its error, seen through its views.
pub open spec fn text_result_view(r: Result<String, String>) -> Result<Seq<char>, Seq<char>> {
    match r {
        Ok(s) => Ok(s@),
        Err(e) => Err(e@),
    }
}

/// Pairs of texts seen through their views.
pub open spec fn members_view(members: Seq<(String, String)>) -> Seq<(Seq<char>, Seq<char>)> {
    members.map_values(|p: (String, String)| (p.0@, p.1@))
}

/// `serde_json::from_slice::<Value>`, then `get(field)` and `as_str`; a
/// parse error is given by its `Display` text. The contract claims only
/// that the result is the named one of the bytes and the field.
#[verifier::external_body]
pub(crate) fn json_string_member(bytes: &[u8], field: &str) -> (r: Result<Option<String>, String>)
    ensures
        member_view(r) == json_str_member(bytes@, field@),
{
    match serde_json::from_slice::<serde_json::Value>(bytes) {
        Ok(value) => Ok(value.get(field).and_then(serde_json::Value::as_str).map(str::to_owned)),
        Err(error) => Err(error.to_string()),
    }
}

/// `serde_json::from_slice::<Value>`, then the value's `Display` (compact
/// JSON); a parse error is given by its `Display` text. The contract claims
/// only that the result is the named one of the bytes.
#[verifier::external_body]
pub(crate) fn json_compact_text(bytes: &[u8]) -> (r: Result<String, String>)
    ensures
        text_result_view(r) == json_compact(bytes@),
{
    match serde_json::from_slice::<serde_json::Value>(bytes) {
        Ok(value) => Ok(value.to_string()),
        Err(error) => Err(error.to_string()),
    }
}

/// `serde_json::from_str::<Value>`, then `get(field)`: a string member by
/// its contents, any other member by its `Display` (compact JSON); a parse
/// error is given by its `Display` text. The contract claims only that the
/// result is the named one of the text and the field.
#[verifier::external_body]
pub(crate) fn json_text_field(text: &str, field: &str) -> (r: Result<Option<(bool, String)>, String>)
    ensures
        text_member_view(r) == json_text_member(text@, field@),
{
    match serde_json::from_str::<serde_json::Value>(text) {
        Ok(value) => Ok(match value.get(field) {
            Some(serde_json::Value::String(s)) => Some((true, s.clone())),
            Some(other) => Some((false, other.to_string())),
            None => None,
        }),
        Err(error) => Err(error.to_string()),
    }
}

/// `serde_json::to_vec` of a `Value::Object` made of the given string
/// members. The contract claims that printing succeeds (`to_vec` fails only
/// when a `Serialize` impl fails or a map has keys that are not strings,
/// neither of which a `Value` with string keys does) and that the bytes are
/// the named ones of the members.
#[verifier::external_body]
pub(crate) fn string_object_bytes(members: &Vec<(String, String)>) -> (r: Result<Vec<u8>, String>)
    ensures
        r is Ok,
        r matches Ok(bytes) ==> bytes@ == json_string_object(members_view(members@)),
{
    let object: serde_json::Map<String, serde_json::Value> = members
        .iter()
        .map(|(key, value)| (key.clone(), serde_json::Value::String(value.clone())))
        .collect();
    serde_json::to_vec(&serde_json::Value::Object(object)).map_err(|error| error.to_string())
}

/// `serde_json::to_vec` of a `Value::Object` with the one boolean member
/// `field`. The contract claims that printing succeeds (for the reason given
/// at `string_object_bytes`) and that the bytes are the named ones.
#[verifier::external_body]
pub(crate) fn flag_object_bytes(field: &str, value: bool) -> (r: Result<Vec<u8>, String>)
    ensures
        r is Ok,
        r matches Ok(bytes) ==> bytes@ == json_flag_object(field@, value),
{
    let mut object = serde_json::Map::new();
    object.insert(field.to_owned(), serde_json::Value::Bool(value));
    serde_json::to_vec(&serde_json::Value::Object(object)).map_err(|error| error.to_string())
}

} // verus!
