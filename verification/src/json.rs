//! The JSON documents of the side configuration, read and written by
//! `serde_json`. Nothing in this file is proved: each contract records what
//! `serde_json` does, under a name where the result takes a parser or a
//! serializer to state.

use vstd::prelude::*;

verus! {

/// `serde_json::Value`, a parsed JSON value. Its content is reached only
/// through the functions below.
#[verifier::external_type_specification]
#[verifier::external_body]
pub struct ExJsonValue(serde_json::Value);

/// `serde_json::Error`, the reason a text was not accepted as JSON.
#[verifier::external_type_specification]
#[verifier::external_body]
pub struct ExJsonError(serde_json::Error);

/// The string members of the document that `serde_json::from_str` reads from
/// `text`, as `json_strings` gives them for the value read; `None` where the
/// parser rejects the text.
pub uninterp spec fn json_document_strings(text: Seq<char>) -> Option<Map<Seq<char>, Seq<char>>>;

/// What the object `value` holds in strings: each key whose member is a JSON
/// string, with the content of that string. Members of other kinds are left
/// out, and a value that is no object holds nothing.
pub uninterp spec fn json_strings(value: serde_json::Value) -> Map<Seq<char>, Seq<char>>;

/// The content of `value` where it is a JSON string, as
/// `serde_json::Value::as_str` gives it; `None` for every other kind of value.
pub uninterp spec fn json_text(value: serde_json::Value) -> Option<Seq<char>>;

/// The compact text that `serde_json` writes for the object whose only member
/// has the key `key` and the string `text` as its value.
pub uninterp spec fn json_object_text(key: Seq<char>, text: Seq<char>) -> Seq<char>;

/// Calls `serde_json::from_str` for a `serde_json::Value`. The result is `Ok`
/// exactly where the parser accepts `text`, and the value then holds the string
/// members of the document.
#[verifier::external_body]
pub(crate) fn parse_json(text: &str) -> (parsed: Result<serde_json::Value, serde_json::Error>)
    ensures
        match parsed {
            Ok(value) => json_document_strings(text@) == Some(json_strings(value)),
            Err(_) => json_document_strings(text@) is None,
        },
{
    serde_json::from_str::<serde_json::Value>(text)
}

/// Calls `serde_json::Value::get` with a string key. The result is `None`
/// where `value` is not an object or holds no member named `key`. The member
/// found is a string exactly where `key` is among the string members of
/// `value`, and then has the content recorded there.
#[verifier::external_body]
pub(crate) fn get_member<'a>(value: &'a serde_json::Value, key: &str) -> (member: Option<
    &'a serde_json::Value,
>)
    ensures
        match member {
            Some(found) => json_text(*found) == if json_strings(*value).contains_key(key@) {
                Some(json_strings(*value)[key@])
            } else {
                None
            },
            None => !json_strings(*value).contains_key(key@),
        },
{
    value.get(key)
}

/// Calls `serde_json::Value::as_str`. The result is the string that `value`
/// holds, and `None` where `value` is not a string.
#[verifier::external_body]
pub(crate) fn get_text<'a>(value: &'a serde_json::Value) -> (text: Option<&'a str>)
    ensures
        match text {
            Some(content) => json_text(*value) == Some(content@),
            None => json_text(*value) is None,
        },
{
    value.as_str()
}

/// Builds the object with the single member `key`, whose value is the string
/// `text`, and writes it with `serde_json::Value::to_string`, which gives the
/// compact form.
#[verifier::external_body]
pub(crate) fn write_object(key: &str, text: &str) -> (document: String)
    ensures
        document@ == json_object_text(key@, text@),
{
    let mut members = serde_json::Map::new();
    members.insert(key.to_string(), serde_json::Value::String(text.to_string()));
    serde_json::Value::Object(members).to_string()
}

/// Writes the object without members with `serde_json::Value::to_string`. The
/// compact form of the empty object is an opening and a closing brace.
#[verifier::external_body]
pub(crate) fn write_empty_object() -> (document: String)
    ensures
        document@ == "{}"@,
{
    serde_json::Value::Object(serde_json::Map::new()).to_string()
}

} // verus!
