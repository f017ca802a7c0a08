//! The boundary with `serde_json`.
//!
//! JSON text is read and written by `serde_json`; nothing in this crate
//! parses or prints JSON itself. A `serde_json::Value` is opaque to the
//! verifier, so the contracts speak of its [`Json`] model instead. Every
//! item in this file that reaches into `serde_json` is trusted: its
//! contract is believed, not proved.

use vstd::prelude::*;

verus! {

/// `serde_json::Value`, carried through as an opaque value.
#[verifier::external_type_specification]
#[verifier::external_body]
pub struct ExValue(serde_json::Value);

/// `serde_json::Map`, the members of a JSON object, as an opaque value.
#[verifier::external_type_specification]
#[verifier::external_body]
#[verifier::reject_recursive_types(K)]
#[verifier::reject_recursive_types(V)]
pub struct ExMembers<K, V>(serde_json::Map<K, V>);

/// `serde_json::Error`, as an opaque value.
#[verifier::external_type_specification]
#[verifier::external_body]
pub struct ExError(serde_json::Error);

/// The mathematical content of a JSON value.
///
/// A number stands as the text that `serde_json` displays for it; an object
/// is a finite map, so it has no member order and no member twice.
pub enum Json {
    Null,
    Bool(bool),
    Number(Seq<char>),
    String(Seq<char>),
    Array(Seq<Json>),
    Object(Map<Seq<char>, Json>),
}

impl Json {
    /// The member of an object under `key`; `None` for a missing member and
    /// for anything that is not an object.
    pub open spec fn member(self, key: Seq<char>) -> Option<Json> {
        match self {
            Json::Object(members) => if members.contains_key(key) {
                Some(members[key])
            } else {
                None
            },
            _ => None,
        }
    }

    /// The characters of a JSON string; `None` for anything else.
    pub open spec fn as_text(self) -> Option<Seq<char>> {
        match self {
            Json::String(s) => Some(s),
            _ => None,
        }
    }
}

/// The members of the empty object.
pub open spec fn no_members() -> Map<Seq<char>, Json> {
    Map::empty()
}

/// The content of a `serde_json::Value`: variant for variant, a `Number` by
/// its displayed text, an `Object` by its members.
pub uninterp spec fn json_model(v: serde_json::Value) -> Json;

/// The members that a `serde_json::Map` holds, each value by its content.
pub uninterp spec fn json_members(m: serde_json::Map<String, serde_json::Value>) -> Map<
    Seq<char>,
    Json,
>;

/// What `serde_json::from_str` makes of a text when asked for a `Value`.
pub uninterp spec fn json_parse(text: Seq<char>) -> Result<Json, serde_json::Error>;

/// What `serde_json::to_string` prints for a `Value` of the given content.
pub uninterp spec fn json_text(content: Json) -> Result<Seq<char>, serde_json::Error>;

/// The text that a `serde_json::Error` displays.
pub uninterp spec fn json_error_text(e: serde_json::Error) -> Seq<char>;

/// Calls `serde_json::from_str::<Value>`. Trusted: the outcome is the one
/// named by [`json_parse`] for this text, a value by its content.
#[verifier::external_body]
pub(crate) fn parse_value(text: &str) -> (r: Result<serde_json::Value, serde_json::Error>)
    ensures
        match r {
            Ok(v) => json_parse(text@) matches Ok(content) && content == json_model(v),
            Err(e) => json_parse(text@) matches Err(failure) && failure == e,
        },
{
    serde_json::from_str::<serde_json::Value>(text)
}

/// Calls `serde_json::to_string` on a `Value`. Trusted: the outcome is the
/// one named by [`json_text`] for the value's content.
#[verifier::external_body]
pub(crate) fn print_value(v: &serde_json::Value) -> (r: Result<String, serde_json::Error>)
    ensures
        match r {
            Ok(s) => json_text(json_model(*v)) matches Ok(printed) && printed == s@,
            Err(e) => json_text(json_model(*v)) matches Err(failure) && failure == e,
        },
{
    serde_json::to_string(v)
}

/// Calls `to_string` on a `serde_json::Error`, which goes through its
/// `Display`. Trusted: the result is the text named by [`json_error_text`].
#[verifier::external_body]
pub(crate) fn error_text(e: &serde_json::Error) -> (r: String)
    ensures
        r@ == json_error_text(*e),
{
    e.to_string()
}

/// Calls `Value::get` with a string key. Trusted: it finds the member of an
/// object under that key, and nothing in a value that is not an object.
#[verifier::external_body]
pub(crate) fn value_member<'a>(v: &'a serde_json::Value, key: &str) -> (r: Option<
    &'a serde_json::Value,
>)
    ensures
        match r {
            Some(m) => json_model(*v).member(key@) == Some(json_model(*m)),
            None => json_model(*v).member(key@) is None,
        },
{
    v.get(key)
}

/// Calls `Value::as_str`. Trusted: it gives the characters of a JSON string,
/// and `None` for every other value.
#[verifier::external_body]
pub(crate) fn value_as_str<'a>(v: &'a serde_json::Value) -> (r: Option<&'a str>)
    ensures
        match r {
            Some(s) => json_model(*v).as_text() == Some(s@),
            None => json_model(*v).as_text() is None,
        },
{
    v.as_str()
}

/// Calls `Value::is_null`. Trusted: it is true of JSON null alone.
#[verifier::external_body]
pub(crate) fn value_is_null(v: &serde_json::Value) -> (b: bool)
    ensures
        b == (json_model(*v) is Null),
{
    v.is_null()
}

/// `Value::clone`. Trusted: the copy has the content of the value that was
/// copied.
pub assume_specification[ <serde_json::Value as Clone>::clone ](v: &serde_json::Value) -> (r:
    serde_json::Value)
    ensures
        json_model(r) == json_model(*v),
;

/// Makes `Value::Null`. Trusted: its content is JSON null.
#[verifier::external_body]
pub(crate) fn null_value() -> (r: serde_json::Value)
    ensures
        json_model(r) == Json::Null,
{
    serde_json::Value::Null
}

/// Makes `Value::String`. Trusted: its content is the JSON string of the
/// same characters.
#[verifier::external_body]
pub(crate) fn string_value(s: String) -> (r: serde_json::Value)
    ensures
        json_model(r) == Json::String(s@),
{
    serde_json::Value::String(s)
}

/// Makes `Value::Object`. Trusted: its content is the object of the map's
/// members.
#[verifier::external_body]
pub(crate) fn object_value(members: serde_json::Map<String, serde_json::Value>) -> (r:
    serde_json::Value)
    ensures
        json_model(r) == Json::Object(json_members(members)),
{
    serde_json::Value::Object(members)
}

/// Calls `Map::new`. Trusted: the new map holds no member.
#[verifier::external_body]
pub(crate) fn new_members() -> (r: serde_json::Map<String, serde_json::Value>)
    ensures
        json_members(r) == no_members(),
{
    serde_json::Map::new()
}

/// Calls `Map::insert`. Trusted: afterwards the map holds `value` under
/// `key`, in place of what it held there before, and every other member as
/// before.
#[verifier::external_body]
pub(crate) fn insert_member(
    members: &mut serde_json::Map<String, serde_json::Value>,
    key: String,
    value: serde_json::Value,
)
    ensures
        json_members(*final(members)) == json_members(*old(members)).insert(
            key@,
            json_model(value),
        ),
{
    members.insert(key, value);
}

} // verus!
