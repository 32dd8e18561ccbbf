//! JSON values as `serde_json` holds them, and what this crate relies on of
//! the calls it makes on them.
//!
//! A `serde_json::Value` is opaque to the verifier. [`json_of`] names the
//! mathematical tree that such a value stands for, and every function below
//! that touches a value says what it does in terms of that tree. None of
//! those statements is proved here: each restates what `serde_json` documents
//! for the call in question.

use vstd::prelude::*;

verus! {

/// A JSON number, as `serde_json` tells numbers apart.
pub enum JsonNumber {
    /// A number held as a 64-bit integer, signed or unsigned.
    Integer(int),
    /// A number held in double precision, by the 64 bits of that form.
    Binary64(u64),
}

/// The mathematical content of a JSON document.
pub enum Json {
    /// `null`.
    Null,
    /// `true` or `false`.
    Bool(bool),
    /// A number.
    Number(JsonNumber),
    /// A string, by its characters.
    Text(Seq<char>),
    /// An array, by its items in order.
    Array(Seq<Json>),
    /// An object, by its members. A key occurs once.
    Object(Map<Seq<char>, Json>),
}

/// The member of `doc` under `key`, if `doc` is an object that has one.
pub open spec fn member_of(doc: Json, key: Seq<char>) -> Option<Json> {
    match doc {
        Json::Object(members) => if members.contains_key(key) {
            Some(members[key])
        } else {
            None
        },
        _ => None,
    }
}

/// An optional tree in which `null` counts as absent.
pub open spec fn present(doc: Option<Json>) -> Option<Json> {
    match doc {
        Some(Json::Null) => None,
        other => other,
    }
}

/// The characters of the member of `doc` under `key`, if `doc` is an object
/// that has one and it is a string.
pub open spec fn text_member_of(doc: Json, key: Seq<char>) -> Option<Seq<char>> {
    match member_of(doc, key) {
        Some(m) => text_of(m),
        None => None,
    }
}

/// The characters of `doc`, if it is a string.
pub open spec fn text_of(doc: Json) -> Option<Seq<char>> {
    match doc {
        Json::Text(s) => Some(s),
        _ => None,
    }
}

/// The value of `doc`, if it is an integer that a signed 64-bit word holds.
pub open spec fn integer_of(doc: Json) -> Option<i64> {
    match doc {
        Json::Number(JsonNumber::Integer(n)) => if i64::MIN <= n <= i64::MAX {
            Some(n as i64)
        } else {
            None
        },
        _ => None,
    }
}

/// `serde_json::Value`, taken as it is: nothing is known of a value but what
/// the functions below say.
#[verifier::external_type_specification]
#[verifier::external_body]
pub struct ExValue(serde_json::Value);

/// `serde_json::Map`, the members of an object, taken as it is.
#[verifier::external_type_specification]
#[verifier::external_body]
#[verifier::reject_recursive_types(K)]
#[verifier::reject_recursive_types(V)]
pub struct ExObjectMap<K, V>(serde_json::Map<K, V>);

/// The tree that a `serde_json::Value` stands for.
pub uninterp spec fn json_of(value: serde_json::Value) -> Json;

/// The members that a `serde_json::Map` holds, each by its key.
pub uninterp spec fn members_of(map: serde_json::Map<String, serde_json::Value>) -> Map<
    Seq<char>,
    Json,
>;

/// What `serde_json::from_str` makes of a text: the tree it reads, or the
/// message of the error it reports.
pub uninterp spec fn parse_outcome(text: Seq<char>) -> Result<Json, Seq<char>>;

/// What `serde_json::to_string` makes of a tree: its compact text, or the
/// message of the error it reports.
pub uninterp spec fn render_outcome(doc: Json) -> Result<Seq<char>, Seq<char>>;

/// The tree of an optional value.
pub open spec fn json_of_option(value: Option<serde_json::Value>) -> Option<Json> {
    match value {
        Some(v) => Some(json_of(v)),
        None => None,
    }
}

/// An object without members.
pub open spec fn no_members() -> Map<Seq<char>, Json> {
    Map::empty()
}

/// The tree or the message that the outcome of a parse holds.
pub open spec fn tree_outcome(outcome: Result<serde_json::Value, String>) -> Result<
    Json,
    Seq<char>,
> {
    match outcome {
        Ok(value) => Ok(json_of(value)),
        Err(message) => Err(message@),
    }
}

/// The text or the message that the outcome of a rendering holds.
pub open spec fn text_outcome(outcome: Result<String, String>) -> Result<Seq<char>, Seq<char>> {
    match outcome {
        Ok(text) => Ok(text@),
        Err(message) => Err(message@),
    }
}

/// `Value::clone`: the copy stands for the same tree.
pub assume_specification[ <serde_json::Value as Clone>::clone ](value: &serde_json::Value) -> (copy:
    serde_json::Value)
    ensures
        json_of(copy) == json_of(*value),
;

/// `Value::as_str`: the characters of a string value, nothing for any other
/// value.
pub assume_specification<'a>[ serde_json::Value::as_str ](value: &'a serde_json::Value) -> (text:
    Option<&'a str>)
    ensures
        match text {
            Some(s) => text_of(json_of(*value)) == Some(s@),
            None => text_of(json_of(*value)).is_none(),
        },
;

/// `Value::as_i64`: the value of an integer that fits a signed 64-bit word,
/// nothing for any other value.
pub assume_specification[ serde_json::Value::as_i64 ](value: &serde_json::Value) -> (n: Option<i64>)
    ensures
        n == integer_of(json_of(*value)),
;

/// `Value::is_null`: whether the value is `null`.
pub assume_specification[ serde_json::Value::is_null ](value: &serde_json::Value) -> (null: bool)
    ensures
        null == (json_of(*value) == Json::Null),
;

/// `Map::new`: a map without members.
#[verifier::external_body]
pub(crate) fn empty_map() -> (fresh: serde_json::Map<String, serde_json::Value>)
    ensures
        members_of(fresh) == no_members(),
{
    serde_json::Map::new()
}

/// `Value::is_object`: whether the value is an object.
pub assume_specification[ serde_json::Value::is_object ](value: &serde_json::Value) -> (object:
    bool)
    ensures
        object == (json_of(*value) is Object),
;

/// `Map::insert`: the member is stored under its key, in place of an earlier
/// member of that key, which is handed back.
pub assume_specification[ serde_json::Map::<String, serde_json::Value>::insert ](
    map: &mut serde_json::Map<String, serde_json::Value>,
    k: String,
    v: serde_json::Value,
) -> (earlier: Option<serde_json::Value>)
    ensures
        members_of(*final(map)) == members_of(*old(map)).insert(k@, json_of(v)),
        json_of_option(earlier) == member_of(Json::Object(members_of(*old(map))), k@),
;

/// `Value::get` with a string index: the member under the key where the value
/// is an object that has one, nothing otherwise.
#[verifier::external_body]
pub(crate) fn member<'a>(value: &'a serde_json::Value, key: &str) -> (found: Option<
    &'a serde_json::Value,
>)
    ensures
        match found {
            Some(m) => member_of(json_of(*value), key@) == Some(json_of(*m)),
            None => member_of(json_of(*value), key@).is_none(),
        },
{
    value.get(key)
}

/// The variant `Value::Null`.
#[verifier::external_body]
pub(crate) fn null_value() -> (value: serde_json::Value)
    ensures
        json_of(value) == Json::Null,
{
    serde_json::Value::Null
}

/// The variant `Value::String`.
#[verifier::external_body]
pub(crate) fn text_value(text: String) -> (value: serde_json::Value)
    ensures
        json_of(value) == Json::Text(text@),
{
    serde_json::Value::String(text)
}

/// `Value::from` on a signed 64-bit integer: the number of that value.
#[verifier::external_body]
pub(crate) fn integer_value(n: i64) -> (value: serde_json::Value)
    ensures
        json_of(value) == Json::Number(JsonNumber::Integer(n as int)),
{
    serde_json::Value::from(n)
}

/// The variant `Value::Array`.
#[verifier::external_body]
pub(crate) fn array_value(items: Vec<serde_json::Value>) -> (value: serde_json::Value)
    ensures
        json_of(value) == Json::Array(items@.map_values(|item: serde_json::Value| json_of(item))),
{
    serde_json::Value::Array(items)
}

/// The variant `Value::Object`.
#[verifier::external_body]
pub(crate) fn object_value(map: serde_json::Map<String, serde_json::Value>) -> (value:
    serde_json::Value)
    ensures
        json_of(value) == Json::Object(members_of(map)),
{
    serde_json::Value::Object(map)
}

/// `serde_json::from_str` for a `Value`: the outcome depends on the text
/// alone. An error is handed on as its message.
#[verifier::external_body]
pub(crate) fn parse_text(text: &str) -> (outcome: Result<serde_json::Value, String>)
    ensures
        tree_outcome(outcome) == parse_outcome(text@),
{
    serde_json::from_str::<serde_json::Value>(text).map_err(|e| e.to_string())
}

/// `serde_json::to_string` on a `Value`: the outcome depends on the tree
/// alone, since an object keeps its members in the order of their keys. An
/// error is handed on as its message.
#[verifier::external_body]
pub(crate) fn render_text(value: &serde_json::Value) -> (outcome: Result<String, String>)
    ensures
        text_outcome(outcome) == render_outcome(json_of(*value)),
{
    serde_json::to_string(value).map_err(|e| e.to_string())
}

} // verus!
