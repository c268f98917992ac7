//! The model of a JSON value, and what the envelopes need of `serde_json`.
//!
//! `serde_json::Value` is opaque to the verifier. Everything that is known of
//! a value is known through [`json_view`], and everything that is known of
//! `json_view` is what the items of this module state: they are believed, not
//! proved. Each one names the function of `serde_json` or of `std` that it
//! speaks for.

use serde_json::Value;
use vstd::prelude::*;

verus! {

/// `serde_json::Value`, taken as it is: nothing of its inside is visible.
#[verifier::external_type_specification]
#[verifier::external_body]
pub struct ExValue(serde_json::Value);

/// `serde_json::Map`, taken as it is: nothing of its inside is visible.
#[verifier::external_type_specification]
#[verifier::external_body]
#[verifier::reject_recursive_types(K)]
#[verifier::reject_recursive_types(V)]
pub struct ExMap<K, V>(serde_json::Map<K, V>);

/// A JSON value as a mathematical tree.
pub enum JsonView {
    /// `null`.
    Null,
    /// `true` or `false`.
    Bool(bool),
    /// A number that is held as an integer: one written without fraction or
    /// exponent, from `i64::MIN` to `u64::MAX`.
    Integer(int),
    /// Any other number, by the bits of the finite double that holds it.
    Fraction(u64),
    /// A string.
    String(Seq<char>),
    /// An array.
    Array(Seq<JsonView>),
    /// An object: each key occurs once, and no order is kept.
    Object(Map<Seq<char>, JsonView>),
}

/// The fields of a JSON object, by their keys.
pub type Fields = Map<Seq<char>, JsonView>;

/// The tree that a `serde_json::Value` holds.
pub uninterp spec fn json_view(value: Value) -> JsonView;

/// The fields that a `serde_json::Map` holds, each value as its tree.
pub uninterp spec fn fields_view(map: serde_json::Map<String, Value>) -> Fields;

/// `Value::as_object` hands out the map of an object, and `None` for every
/// other value.
pub assume_specification[ Value::as_object ](value: &Value) -> (out: Option<
    &serde_json::Map<String, Value>,
>)
    ensures
        match json_view(*value) {
            JsonView::Object(fields) => out matches Some(map) && fields_view(*map) == fields,
            _ => out is None,
        },
;

/// `Value::as_str` hands out the text of a string, and `None` for every
/// other value.
pub assume_specification[ Value::as_str ](value: &Value) -> (out: Option<&str>)
    ensures
        match json_view(*value) {
            JsonView::String(text) => out matches Some(s) && s@ == text,
            _ => out is None,
        },
;

/// `Value::as_i64` hands out a number that is held as an integer and fits in
/// an `i64`, and `None` for every other value: a larger integer, a number
/// with a fraction, or no number at all.
pub assume_specification[ Value::as_i64 ](value: &Value) -> (out: Option<i64>)
    ensures
        match json_view(*value) {
            JsonView::Integer(n) => if i64::MIN <= n <= i64::MAX {
                out == Some(n as i64)
            } else {
                out is None
            },
            _ => out is None,
        },
;

/// `Value::is_null` tells `null` from every other value.
pub assume_specification[ Value::is_null ](value: &Value) -> (out: bool)
    ensures
        out == (json_view(*value) is Null),
;

/// `Value::clone` makes a value that holds the same tree.
pub assume_specification[ <Value as Clone>::clone ](value: &Value) -> (out: Value)
    ensures
        json_view(out) == json_view(*value),
;

/// `Map::new` makes a map without fields.
pub assume_specification[ serde_json::Map::<String, Value>::new ]() -> (out: serde_json::Map<
    String,
    Value,
>)
    ensures
        fields_view(out) == Fields::empty(),
;

/// `Map::get` looks a key up: it finds the value of a key that the map holds,
/// and nothing for any other key.
#[verifier::external_body]
pub(crate) fn field<'a>(map: &'a serde_json::Map<String, Value>, key: &str) -> (out: Option<
    &'a Value,
>)
    ensures
        match out {
            Some(value) => fields_view(*map).contains_key(key@) && json_view(*value)
                == fields_view(*map)[key@],
            None => !fields_view(*map).contains_key(key@),
        },
{
    map.get(key)
}

/// `Map::keys` walks the keys of the map: every key of the map is among
/// them, and nothing else is.
#[verifier::external_body]
pub(crate) fn keys<'a>(map: &'a serde_json::Map<String, Value>) -> (out: Vec<&'a str>)
    ensures
        forall|i: int| 0 <= i < out@.len() ==> fields_view(*map).contains_key(#[trigger] out@[i]@),
        forall|key: Seq<char>|
            fields_view(*map).contains_key(key) ==> exists|i: int|
                0 <= i < out@.len() && #[trigger] out@[i]@ == key,
{
    map.keys().map(|key| key.as_str()).collect()
}

/// `Map::insert` sets one field, in place of the value that the key had, if
/// it had one, and leaves the other fields as they were.
#[verifier::external_body]
pub(crate) fn set_field(map: &mut serde_json::Map<String, Value>, key: &str, value: Value)
    ensures
        fields_view(*final(map)) == fields_view(*old(map)).insert(key@, json_view(value)),
{
    map.insert(key.to_owned(), value);
}

/// `Value::from`, of a map, makes the object of its fields.
#[verifier::external_body]
pub(crate) fn object(map: serde_json::Map<String, Value>) -> (out: Value)
    ensures
        json_view(out) == JsonView::Object(fields_view(map)),
{
    Value::from(map)
}

/// `Value::from`, of a string slice, makes the string of its text.
#[verifier::external_body]
pub(crate) fn string(text: &str) -> (out: Value)
    ensures
        json_view(out) == JsonView::String(text@),
{
    Value::from(text)
}

/// `Value::from`, of an `i64`, makes the number that is held as that
/// integer.
#[verifier::external_body]
pub(crate) fn integer(n: i64) -> (out: Value)
    ensures
        json_view(out) == JsonView::Integer(n as int),
{
    Value::from(n)
}

/// The variant `Value::Null` is `null`.
#[verifier::external_body]
pub(crate) fn null() -> (out: Value)
    ensures
        json_view(out) is Null,
{
    Value::Null
}

/// `str::eq` compares two string slices by their text.
#[verifier::external_body]
pub(crate) fn same_text(a: &str, b: &str) -> (out: bool)
    ensures
        out == (a@ == b@),
{
    a == b
}

} // verus!
