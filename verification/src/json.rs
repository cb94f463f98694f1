//! JSON documents, as the configuration files are written, read with
//! `serde_json`.
use vstd::prelude::*;

verus! {

#[verifier::external_type_specification]
#[verifier::external_body]
pub struct ExJsonValue(serde_json::Value);

/// What a JSON value holds. A number is held as what it gives as an `i64`
/// (none where it is no integer in range) and as the bit pattern of the
/// 64-bit float that it gives (every number gives one); the entries of
/// an object stand in the order in which its map hands them out, each key
/// once.
pub enum JsonValue {
    Null,
    Bool(bool),
    Number(Option<i64>, u64),
    Str(Seq<char>),
    Array(Seq<JsonValue>),
    Object(Seq<(Seq<char>, JsonValue)>),
}

/// What a `serde_json::Value` holds.
pub uninterp spec fn json_contents(v: serde_json::Value) -> JsonValue;

/// What `serde_json::from_str` makes of a text: the value, or the text of
/// the error.
pub uninterp spec fn json_parse(text: Seq<char>) -> Result<JsonValue, Seq<char>>;

/// The value of the first entry named `key`.
pub open spec fn entry_lookup(entries: Seq<(Seq<char>, JsonValue)>, key: Seq<char>) -> Option<JsonValue>
    decreases entries.len(),
{
    if entries.len() == 0 {
        None
    } else if entries[0].0 == key {
        Some(entries[0].1)
    } else {
        entry_lookup(entries.drop_first(), key)
    }
}

/// The member `key` of an object; nothing for any other value.
pub open spec fn member(v: JsonValue, key: Seq<char>) -> Option<JsonValue> {
    match v {
        JsonValue::Object(entries) => entry_lookup(entries, key),
        _ => None,
    }
}

/// `serde_json::from_str` into a `serde_json::Value`.
#[verifier::external_body]
pub(crate) fn parse_json(text: &str) -> (r: Result<serde_json::Value, String>)
    ensures
        r is Ok == json_parse(text@) is Ok,
        r is Ok ==> json_contents(r->Ok_0) == json_parse(text@)->Ok_0,
        r is Err ==> r->Err_0@ == json_parse(text@)->Err_0,
{
    serde_json::from_str::<serde_json::Value>(text).map_err(|e| e.to_string())
}

/// `Value::get` with a key: the member of an object (keys are unique in a
/// `serde_json` map, so it is the first entry of that name).
#[verifier::external_body]
pub(crate) fn json_get<'a>(v: &'a serde_json::Value, key: &str) -> (r: Option<&'a serde_json::Value>)
    ensures
        r is Some == member(json_contents(*v), key@) is Some,
        r is Some ==> json_contents(*r->Some_0) == member(json_contents(*v), key@)->Some_0,
{
    v.get(key)
}

/// `Value::as_object` and the map's `iter`: the entries of an object, in the
/// order in which the map hands them out.
#[verifier::external_body]
pub(crate) fn json_object_entries<'a>(v: &'a serde_json::Value) -> (r: Option<Vec<(String, &'a serde_json::Value)>>)
    ensures
        r is Some == json_contents(*v) is Object,
        r is Some ==> r->Some_0@.len() == json_contents(*v)->Object_0.len(),
        r is Some ==> forall|i: int| 0 <= i < r->Some_0@.len() ==> (#[trigger] r->Some_0@[i]).0@
            == json_contents(*v)->Object_0[i].0 && json_contents(*r->Some_0@[i].1)
            == json_contents(*v)->Object_0[i].1,
{
    v.as_object().map(|m| m.iter().map(|(k, x)| (k.clone(), x)).collect())
}

/// `Value::as_array`: the items of an array.
#[verifier::external_body]
pub(crate) fn json_array_items<'a>(v: &'a serde_json::Value) -> (r: Option<&'a Vec<serde_json::Value>>)
    ensures
        r is Some == json_contents(*v) is Array,
        r is Some ==> r->Some_0@.len() == json_contents(*v)->Array_0.len(),
        r is Some ==> forall|i: int| 0 <= i < r->Some_0@.len()
            ==> json_contents(#[trigger] r->Some_0@[i]) == json_contents(*v)->Array_0[i],
{
    v.as_array()
}

/// `Value::as_i64`.
#[verifier::external_body]
pub(crate) fn json_as_i64(v: &serde_json::Value) -> (r: Option<i64>)
    ensures
        r == match json_contents(*v) {
            JsonValue::Number(i, _) => i,
            _ => None,
        },
{
    v.as_i64()
}

/// `Value::as_f64`, the float taken by its bit pattern. Without the
/// `arbitrary_precision` feature of `serde_json` (it is not enabled here),
/// `Number::as_f64` gives a float for every number.
#[verifier::external_body]
pub(crate) fn json_as_float_bits(v: &serde_json::Value) -> (r: Option<u64>)
    ensures
        r == match json_contents(*v) {
            JsonValue::Number(_, f) => Some(f),
            _ => None,
        },
{
    v.as_f64().map(|f| f.to_bits())
}

/// `Value::as_bool`.
#[verifier::external_body]
pub(crate) fn json_as_bool(v: &serde_json::Value) -> (r: Option<bool>)
    ensures
        r == match json_contents(*v) {
            JsonValue::Bool(b) => Some(b),
            _ => None,
        },
{
    v.as_bool()
}

/// `Value::as_str`.
#[verifier::external_body]
pub(crate) fn json_as_str<'a>(v: &'a serde_json::Value) -> (r: Option<&'a str>)
    ensures
        r is Some == json_contents(*v) is Str,
        r is Some ==> r->Some_0@ == json_contents(*v)->Str_0,
{
    v.as_str()
}

} // verus!
