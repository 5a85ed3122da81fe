//! JSON values, as `serde_json` holds them.

use crate::entries::{lookup, put};
use serde_json::Error as JsonError;
use serde_json::Value;
use vstd::prelude::*;

verus! {

#[verifier::external_type_specification]
#[verifier::external_body]
pub struct ExValue(serde_json::Value);

#[verifier::external_type_specification]
#[verifier::external_body]
#[verifier::reject_recursive_types(K)]
#[verifier::reject_recursive_types(V)]
pub struct ExJsonMap<K, V>(serde_json::Map<K, V>);

#[verifier::external_type_specification]
#[verifier::external_body]
pub struct ExJsonError(JsonError);

/// What a JSON value is at its outermost layer.
pub enum JsonValue {
    Null,
    Bool(bool),
    /// A number that is held as an `i64` or a `u64`.
    Integer(int),
    Text(Seq<char>),
    Array(Seq<Value>),
    Object(serde_json::Map<String, Value>),
    /// A number that is held as a float.
    Float,
}

/// What `serde_json::Value` holds at its outermost layer.
pub uninterp spec fn json_value(value: Value) -> JsonValue;

/// What `serde_json::Map` holds: its members, in the order in which it is walked.
pub uninterp spec fn json_members(map: serde_json::Map<String, Value>) -> Seq<(Seq<char>, Value)>;

/// What `serde_json::to_vec` makes of a value.
pub uninterp spec fn json_bytes(value: Value) -> Seq<u8>;

/// What `serde_json::from_slice` makes of bytes, where a value is asked for.
pub uninterp spec fn json_parsed(bytes: Seq<u8>) -> Result<Value, JsonError>;

/// How many layers of arrays and objects `serde_json` reads back.
pub const READABLE_LAYERS: u64 = 127;

/// Whether the text of `value` tells it without loss: it has no float, and at
/// most `layers` arrays and objects stand inside each other.
pub open spec fn is_lossless(value: Value, layers: nat) -> bool
    decreases layers,
{
    match json_value(value) {
        JsonValue::Array(items) => layers > 0 && forall|i: int|
            0 <= i < items.len() ==> is_lossless(#[trigger] items[i], (layers - 1) as nat),
        JsonValue::Object(map) => layers > 0 && forall|i: int|
            0 <= i < json_members(map).len() ==> is_lossless(
                (#[trigger] json_members(map)[i]).1,
                (layers - 1) as nat,
            ),
        JsonValue::Float => false,
        _ => true,
    }
}

/// Whether `bytes` are read back as `value`, where nothing is lost in its text.
pub open spec fn reads_back(value: Value, bytes: Seq<u8>) -> bool {
    is_lossless(value, READABLE_LAYERS as nat) ==> json_parsed(bytes) == Ok::<Value, JsonError>(
        value,
    )
}

/// Whether `bytes` are the text of `value`.
pub open spec fn is_json_text(value: Value, bytes: Seq<u8>) -> bool {
    &&& bytes == json_bytes(value)
    &&& reads_back(value, bytes)
}

/// `serde_json::Value::clone`: the same value again.
pub assume_specification[ <serde_json::Value as Clone>::clone ](
    value: &serde_json::Value,
) -> (copy: serde_json::Value)
    ensures
        copy == *value,
;

/// The member of `value` named `key`, where `value` is an object that has one.
pub open spec fn member(value: Value, key: Seq<char>) -> Option<Value> {
    match json_value(value) {
        JsonValue::Object(map) => lookup(json_members(map), key),
        _ => None,
    }
}

/// Whether `value` is an object with exactly the given members.
pub open spec fn is_object_of(value: Value, members: Seq<(Seq<char>, JsonValue)>) -> bool {
    match json_value(value) {
        JsonValue::Object(map) => {
            let held = json_members(map);
            &&& held.len() == members.len()
            &&& forall|i: int|
                0 <= i < members.len() ==> (#[trigger] held[i]).0 == members[i].0 && json_value(
                    held[i].1,
                ) == members[i].1
        },
        _ => false,
    }
}

/// `serde_json::Value::get` by name: the member of an object, and nothing of
/// any other value.
#[verifier::external_body]
pub(crate) fn json_get<'a>(value: &'a Value, key: &str) -> (found: Option<&'a Value>)
    ensures
        found is Some == member(*value, key@) is Some,
        found matches Some(held) ==> member(*value, key@) == Some(*held),
{
    value.get(key)
}

/// `serde_json::Value::is_null`.
#[verifier::external_body]
pub(crate) fn json_is_null(value: &Value) -> (null: bool)
    ensures
        null == (json_value(*value) is Null),
{
    value.is_null()
}

/// `serde_json::Value::as_object`: the table of an object, and nothing of any
/// other value.
#[verifier::external_body]
pub(crate) fn json_as_object(value: &Value) -> (found: Option<&serde_json::Map<String, Value>>)
    ensures
        match json_value(*value) {
            JsonValue::Object(map) => found == Some(&map),
            _ => found is None,
        },
{
    value.as_object()
}

/// `serde_json::Value::as_str`: the text of a string, and nothing of any other
/// value.
#[verifier::external_body]
pub(crate) fn json_as_str(value: &Value) -> (found: Option<&str>)
    ensures
        match json_value(*value) {
            JsonValue::Text(text) => found matches Some(held) && held@ == text,
            _ => found is None,
        },
{
    value.as_str()
}

/// `serde_json::Map::get`: the member of that name.
#[verifier::external_body]
pub(crate) fn json_map_get<'a>(
    map: &'a serde_json::Map<String, Value>,
    key: &str,
) -> (found: Option<&'a Value>)
    ensures
        found is Some == lookup(json_members(*map), key@) is Some,
        found matches Some(held) ==> lookup(json_members(*map), key@) == Some(*held),
{
    map.get(key)
}

/// `serde_json::Map::is_empty`.
#[verifier::external_body]
pub(crate) fn json_map_is_empty(map: &serde_json::Map<String, Value>) -> (empty: bool)
    ensures
        empty == (json_members(*map).len() == 0),
{
    map.is_empty()
}

/// `serde_json::Map::iter`: hands out each member once, in the map's order. A
/// map holds no name twice.
#[verifier::external_body]
pub(crate) fn json_map_iter(map: &serde_json::Map<String, Value>) -> (held: Vec<(&String, &Value)>)
    ensures
        held@.len() == json_members(*map).len(),
        forall|i: int|
            0 <= i < held@.len() ==> (#[trigger] held@[i]).0@ == json_members(*map)[i].0
                && *held@[i].1 == json_members(*map)[i].1,
        forall|i: int, j: int|
            0 <= i < j < held@.len() ==> (#[trigger] held@[i]).0@ != (#[trigger] held@[j]).0@,
{
    map.iter().collect()
}

/// `serde_json::Map::new`: a map without members.
#[verifier::external_body]
pub(crate) fn json_map_new() -> (map: serde_json::Map<String, Value>)
    ensures
        json_members(map) == Seq::<(Seq<char>, Value)>::empty(),
{
    serde_json::Map::new()
}

/// `serde_json::Map::insert`, as it is built here, with members kept in the
/// order of their insertion: a member of that name gets the new value in its
/// place, a new member comes last.
#[verifier::external_body]
pub(crate) fn json_map_insert(
    map: &mut serde_json::Map<String, Value>,
    key: String,
    value: Value,
)
    ensures
        json_members(*final(map)) == put(json_members(*old(map)), key@, value),
{
    map.insert(key, value);
}

/// The variant `serde_json::Value::Object`.
#[verifier::external_body]
pub(crate) fn json_object(map: serde_json::Map<String, Value>) -> (value: Value)
    ensures
        json_value(value) == JsonValue::Object(map),
{
    Value::Object(map)
}

/// The variant `serde_json::Value::String`.
#[verifier::external_body]
pub(crate) fn json_text(text: String) -> (value: Value)
    ensures
        json_value(value) == JsonValue::Text(text@),
{
    Value::String(text)
}

/// `serde_json::Value::from` of an `i64`: the number itself.
#[verifier::external_body]
pub(crate) fn json_integer(number: i64) -> (value: Value)
    ensures
        json_value(value) == JsonValue::Integer(number as int),
{
    Value::from(number)
}

/// `serde_json::to_vec` of a JSON value: its compact text, as bytes. A JSON value
/// always has one, and the text is a function of it. `serde_json::from_slice`
/// reads it back as the same value, unless it has a float, which may be read
/// inexactly, or too many layers, which are refused.
#[verifier::external_body]
pub(crate) fn json_to_vec(value: &Value) -> (encoded: Result<Vec<u8>, JsonError>)
    ensures
        encoded is Ok,
        encoded->Ok_0@ == json_bytes(*value),
        reads_back(*value, encoded->Ok_0@),
{
    serde_json::to_vec(value)
}

/// `serde_json::from_slice` where a value is asked for: the value that the text
/// in these bytes tells, which is a function of the bytes.
#[verifier::external_body]
pub(crate) fn json_from_slice(bytes: &Vec<u8>) -> (parsed: Result<Value, JsonError>)
    ensures
        parsed == json_parsed(bytes@),
{
    serde_json::from_slice(bytes)
}

} // verus!
