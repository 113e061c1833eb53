//! The JSON envelope, modelled abstractly, and the trusted boundary to
//! `serde_json`, which does the actual text work on the wire.
//!
//! A `serde_json::Value` is opaque to the verifier; `json_val` names the
//! JSON tree a value holds, and each wrapper below states over that name
//! what the one `serde_json` function it calls does.

use vstd::prelude::*;

verus! {

/// A JSON tree as a mathematical value. Numbers the chat protocol uses are
/// unsigned 64-bit integers; any other number (negative, or with a
/// fractional part) is collapsed into [`JsonData::OtherNum`], which the
/// reply reader rejects as ill-typed.
#[verifier::ext_equal]
pub ghost enum JsonData {
    Null,
    Bool(bool),
    UInt(u64),
    OtherNum,
    Str(Seq<char>),
    Arr(Seq<JsonData>),
    Obj(Map<Seq<char>, JsonData>),
}

/// Holds when a tree contains no [`JsonData::OtherNum`]: every number in it
/// is a `u64`, so its serialized text is determined by the tree alone.
pub open spec fn exact_numbers(j: JsonData) -> bool
    decreases j,
{
    match j {
        JsonData::OtherNum => false,
        JsonData::Arr(items) => forall|i: int|
            0 <= i < items.len() ==> exact_numbers(#[trigger] items[i]),
        JsonData::Obj(m) => forall|k: Seq<char>|
            m.dom().contains(k) ==> exact_numbers(#[trigger] m[k]),
        _ => true,
    }
}

#[verifier::external_type_specification]
#[verifier::external_body]
pub struct ExValue(serde_json::Value);

/// The JSON tree held by a `serde_json::Value`.
pub uninterp spec fn json_val(v: serde_json::Value) -> JsonData;

/// The tree that JSON text parses to, or `None` where the text is not a
/// single well-formed JSON document.
pub uninterp spec fn json_of_text(s: Seq<char>) -> Option<JsonData>;

/// The serialized text of a JSON tree whose numbers are all `u64`.
pub uninterp spec fn text_of_json(j: JsonData) -> Seq<char>;

/// Relies on `serde_json::from_str::<Value>`: parsing is a function of the
/// text alone, so the result is exactly `json_of_text` of the input.
#[verifier::external_body]
pub fn parse_json(s: &str) -> (r: Option<serde_json::Value>)
    ensures
        match r {
            Some(v) => json_of_text(s@) == Some(json_val(v)),
            None => json_of_text(s@) == None::<JsonData>,
        },
{
    serde_json::from_str::<serde_json::Value>(s).ok()
}

/// Relies on `serde_json::Value::get` with a string index: on an object it
/// looks the key up in the map, on anything else it returns `None`.
#[verifier::external_body]
pub fn v_get<'a>(v: &'a serde_json::Value, key: &str) -> (r: Option<&'a serde_json::Value>)
    ensures
        match json_val(*v) {
            JsonData::Obj(m) => match r {
                Some(w) => m.dom().contains(key@) && json_val(*w) == m[key@],
                None => !m.dom().contains(key@),
            },
            _ => r matches None,
        },
{
    v.get(key)
}

/// Relies on `serde_json::Value::as_str`: `Some` exactly on a JSON string,
/// returning its characters.
#[verifier::external_body]
pub fn v_as_str(v: &serde_json::Value) -> (r: Option<String>)
    ensures
        match json_val(*v) {
            JsonData::Str(s) => r matches Some(out) && out@ == s,
            _ => r matches None,
        },
{
    v.as_str().map(|s| s.to_owned())
}

/// Relies on `serde_json::Value::as_bool`: `Some` exactly on a JSON boolean.
#[verifier::external_body]
pub fn v_as_bool(v: &serde_json::Value) -> (r: Option<bool>)
    ensures
        match json_val(*v) {
            JsonData::Bool(b) => r == Some(b),
            _ => r matches None,
        },
{
    v.as_bool()
}

/// Relies on `serde_json::Value::as_u64` (and `Number::as_u64`): `Some`
/// exactly on a number stored as an unsigned 64-bit integer.
#[verifier::external_body]
pub fn v_as_u64(v: &serde_json::Value) -> (r: Option<u64>)
    ensures
        match json_val(*v) {
            JsonData::UInt(u) => r == Some(u),
            _ => r matches None,
        },
{
    v.as_u64()
}

/// Relies on `serde_json::Value::String`: the constructed value holds
/// exactly the given characters.
#[verifier::external_body]
pub fn v_str(s: &str) -> (r: serde_json::Value)
    ensures
        json_val(r) == JsonData::Str(s@),
{
    serde_json::Value::String(s.to_owned())
}

/// Relies on `serde_json::Value::Bool`.
#[verifier::external_body]
pub fn v_bool(b: bool) -> (r: serde_json::Value)
    ensures
        json_val(r) == JsonData::Bool(b),
{
    serde_json::Value::Bool(b)
}

/// Relies on `serde_json::Value::Array`: the constructed value holds the
/// given elements in order.
#[verifier::external_body]
pub fn v_arr(items: Vec<serde_json::Value>) -> (r: serde_json::Value)
    ensures
        json_val(r) == JsonData::Arr(items@.map_values(|v: serde_json::Value| json_val(v))),
{
    serde_json::Value::Array(items)
}

/// Relies on `serde_json::Value::Object` and `serde_json::Map::new`: a
/// fresh object holds the empty map.
#[verifier::external_body]
pub fn v_obj_empty() -> (r: serde_json::Value)
    ensures
        json_val(r) == JsonData::Obj(Map::<Seq<char>, JsonData>::empty()),
{
    serde_json::Value::Object(serde_json::Map::new())
}

/// Relies on `serde_json::Map::insert` (a `BTreeMap` insert): on an object,
/// the key is bound to the new value and every other binding is kept.
#[verifier::external_body]
pub fn v_obj_insert(obj: &mut serde_json::Value, key: &str, val: serde_json::Value)
    requires
        json_val(*old(obj)) matches JsonData::Obj(_),
    ensures
        (match json_val(*old(obj)) {
            JsonData::Obj(m) => json_val(*final(obj)) == JsonData::Obj(m.insert(key@, json_val(val))),
            _ => false,
        }),
{
    if let serde_json::Value::Object(m) = obj {
        m.insert(key.to_owned(), val);
    }
}

/// Relies on `serde_json::to_string` on a `Value`: serialization of a value
/// tree cannot fail (its map keys are strings and its numbers are finite),
/// object members are emitted in the key order of the backing `BTreeMap`,
/// and so the text is a function of the tree alone once every number in it
/// is an exact `u64`.
#[verifier::external_body]
pub fn to_json_text(v: &serde_json::Value) -> (r: String)
    requires
        exact_numbers(json_val(*v)),
    ensures
        r@ == text_of_json(json_val(*v)),
{
    match serde_json::to_string(v) {
        Ok(s) => s,
        Err(_) => String::new(),
    }
}

} // verus!
