//! The JSON value tree that a document is turned into, and the boundary to
//! `serde_json`, which holds the tree at run time and renders it as text.
//!
//! Verus sees nothing inside a `serde_json::Value`. The contracts in this
//! module speak of what such a value holds through [`json_of`], and every
//! function below that is marked `external_body` is believed, not proved.

use crate::number::{HALF_BITS, ONE_BITS, ZERO_BITS};
use vstd::prelude::*;

verus! {

/// One key of a JSON object together with its value.
pub type Entry = (Seq<char>, Json);

/// A JSON value as mathematics: what a `serde_json::Value` holds.
///
/// A floating-point number is given by its IEEE 754 binary64 bit pattern, an
/// object by its entries in the order in which they are written out.
pub enum Json {
    Null,
    Bool(bool),
    Integer(int),
    Real(u64),
    Text(Seq<char>),
    Array(Seq<Json>),
    Object(Seq<Entry>),
}

/// `serde_json::Value`, a JSON value at run time. Nothing inside it is seen.
#[verifier::external_type_specification]
#[verifier::external_body]
pub struct ExValue(serde_json::Value);

/// `serde_json::Map`, the entries of a JSON object at run time. With the
/// `preserve_order` feature it keeps them in the order in which they came.
#[verifier::external_type_specification]
#[verifier::external_body]
#[verifier::reject_recursive_types(K)]
#[verifier::reject_recursive_types(V)]
pub struct ExMap<K, V>(serde_json::Map<K, V>);

/// `serde_json::Error`, with which a rendering fails. It is never looked into.
#[verifier::external_type_specification]
#[verifier::external_body]
pub struct ExJsonError(serde_json::Error);

/// What a `serde_json::Value` holds.
pub uninterp spec fn json_of(v: serde_json::Value) -> Json;

/// The entries of a `serde_json::Map`, in iteration order.
pub uninterp spec fn entries_of(m: serde_json::Map<String, serde_json::Value>) -> Seq<Entry>;

/// The bytes that `serde_json::ser::to_writer_pretty` writes for a value.
pub uninterp spec fn pretty_text(j: Json) -> Seq<u8>;

/// The bit pattern of the number that `serde_json::from_str` reads from a
/// decimal literal, for the three literals that name a schema default.
pub open spec fn decimal_bits(text: Seq<char>) -> Option<u64> {
    if text == "0.0"@ {
        Some(ZERO_BITS)
    } else if text == "0.5"@ {
        Some(HALF_BITS)
    } else if text == "1.0"@ {
        Some(ONE_BITS)
    } else {
        None
    }
}

/// Whether some entry of `entries` has the key `key`.
pub open spec fn has_key(entries: Seq<Entry>, key: Seq<char>) -> bool {
    exists|i: int| 0 <= i < entries.len() && (#[trigger] entries[i]).0 == key
}

/// What each value of a sequence holds.
pub open spec fn models(items: Seq<serde_json::Value>) -> Seq<Json> {
    items.map_values(|v: serde_json::Value| json_of(v))
}

/// `serde_json::Map::new`: a map without entries.
#[verifier::external_body]
pub(crate) fn map_new() -> (m: serde_json::Map<String, serde_json::Value>)
    ensures
        entries_of(m) == Seq::<Entry>::empty(),
{
    serde_json::Map::new()
}

/// `serde_json::Map::insert` with the `preserve_order` feature, for a key
/// that the map does not hold yet: the entry goes behind those that are there.
#[verifier::external_body]
pub(crate) fn map_insert(
    m: &mut serde_json::Map<String, serde_json::Value>,
    key: &str,
    value: serde_json::Value,
)
    requires
        !has_key(entries_of(*old(m)), key@),
    ensures
        entries_of(*final(m)) == entries_of(*old(m)).push((key@, json_of(value))),
{
    m.insert(key.to_owned(), value);
}

/// The variant `serde_json::Value::Object`: the object with the map's entries.
#[verifier::external_body]
pub(crate) fn object_value(m: serde_json::Map<String, serde_json::Value>) -> (v: serde_json::Value)
    ensures
        json_of(v) == Json::Object(entries_of(m)),
{
    serde_json::Value::Object(m)
}

/// The variant `serde_json::Value::Array`: the array of the given values.
#[verifier::external_body]
pub(crate) fn array_value(items: Vec<serde_json::Value>) -> (v: serde_json::Value)
    ensures
        json_of(v) == Json::Array(models(items@)),
{
    serde_json::Value::Array(items)
}

/// `serde_json::Value::from` on a string slice: the string with its characters.
#[verifier::external_body]
pub(crate) fn text_value(s: &str) -> (v: serde_json::Value)
    ensures
        json_of(v) == Json::Text(s@),
{
    serde_json::Value::from(s)
}

/// `serde_json::Value::from` on a `u32`: the integer with that value.
#[verifier::external_body]
pub(crate) fn integer_value(n: u32) -> (v: serde_json::Value)
    ensures
        json_of(v) == Json::Integer(n as int),
{
    serde_json::Value::from(n)
}

/// `serde_json::Value::from` on a `bool`.
#[verifier::external_body]
pub(crate) fn bool_value(b: bool) -> (v: serde_json::Value)
    ensures
        json_of(v) == Json::Bool(b),
{
    serde_json::Value::from(b)
}

/// `serde_json::Value::clone`: a value that holds the same.
#[verifier::external_body]
pub(crate) fn clone_value(v: &serde_json::Value) -> (r: serde_json::Value)
    ensures
        json_of(r) == json_of(*v),
{
    v.clone()
}

/// `serde_json::Value::is_f64`: whether the value is a number kept as a float.
#[verifier::external_body]
pub(crate) fn is_real(v: &serde_json::Value) -> (r: bool)
    ensures
        r == (json_of(*v) is Real),
{
    v.is_f64()
}

/// `serde_json::Value::as_f64`, the float taken by its bits: for a number
/// kept as a float, the bit pattern of that float.
#[verifier::external_body]
pub(crate) fn real_bits(v: &serde_json::Value) -> (r: Option<u64>)
    ensures
        json_of(*v) is Real ==> r == Some(json_of(*v)->Real_0),
{
    v.as_f64().map(|x| x.to_bits())
}

/// `serde_json::from_str` into a `Value`: the literals `0.0`, `0.5` and `1.0`
/// are read as the floats zero, one half and one.
#[verifier::external_body]
pub(crate) fn parse_value(text: &str) -> (r: Option<serde_json::Value>)
    ensures
        decimal_bits(text@) is Some ==> r is Some && json_of(r->0) == Json::Real(
            decimal_bits(text@)->0,
        ),
{
    serde_json::from_str(text).ok()
}

} // verus!
