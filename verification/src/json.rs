//! JSON values, as `serde_json` holds them.
use serde_json::{Number, Value};
use vstd::prelude::*;

verus! {

/// What a JSON number holds: an integer, or a float, which is always finite.
///
/// A float is the rational number it stands for, in lowest terms and with a positive
/// denominator; both zeros are the rational zero.
pub enum NumberModel {
    Integer(int),
    Float { numerator: int, denominator: int },
}

/// What a JSON value holds.
pub enum Json {
    Null,
    Bool(bool),
    Number(NumberModel),
    Text(Seq<char>),
    Array(Seq<Json>),
    Object(Map<Seq<char>, Json>),
}

/// A float that holds the whole number `n`.
pub open spec fn whole_float(n: int) -> NumberModel {
    NumberModel::Float { numerator: n, denominator: 1 }
}

/// The JSON value that is the integer `n`.
pub open spec fn integer_value(n: int) -> Json {
    Json::Number(NumberModel::Integer(n))
}

/// The JSON value type of `serde_json`.
#[verifier::external_type_specification]
#[verifier::external_body]
pub struct ExValue(serde_json::Value);

/// The JSON number type of `serde_json`.
#[verifier::external_type_specification]
#[verifier::external_body]
pub struct ExNumber(serde_json::Number);

/// The map of `serde_json` that a JSON object is made of.
#[verifier::external_type_specification]
#[verifier::external_body]
#[verifier::reject_recursive_types(K)]
#[verifier::reject_recursive_types(V)]
pub struct ExMap<K, V>(serde_json::Map<K, V>);

/// What a `serde_json::Value` holds.
pub uninterp spec fn json(value: Value) -> Json;

/// What a `serde_json::Number` holds.
pub uninterp spec fn number_of(number: Number) -> NumberModel;

/// The keys of a `serde_json::Map`, with what the value under each one holds.
pub uninterp spec fn entries(map: serde_json::Map<String, Value>) -> Map<Seq<char>, Json>;

/// `Value::clone`: the copy holds what the value holds.
pub assume_specification[ <Value as Clone>::clone ](value: &Value) -> (duplicate: Value)
    ensures
        json(duplicate) == json(*value),
;

/// `Number::clone`: the copy holds what the number holds.
pub assume_specification[ <serde_json::Number as Clone>::clone ](
    number: &serde_json::Number,
) -> (duplicate: serde_json::Number)
    ensures
        number_of(duplicate) == number_of(*number),
;

/// `Map::new`: a map without entries.
pub assume_specification[ serde_json::Map::<String, Value>::new ]() -> (map: serde_json::Map<
    String,
    Value,
>)
    ensures
        entries(map) == (Map::<Seq<char>, Json>::empty()),
;

/// `Map::insert`: the key now has the value, whatever it had before; the other
/// entries stay. What the key had before is returned.
pub assume_specification[ serde_json::Map::<String, Value>::insert ](
    map: &mut serde_json::Map<String, Value>,
    k: String,
    v: Value,
) -> (previous: Option<Value>)
    ensures
        entries(*final(map)) == entries(*old(map)).insert(k@, json(v)),
        previous is Some <==> entries(*old(map)).contains_key(k@),
        previous matches Some(value) ==> json(value) == entries(*old(map))[k@],
;

/// `Value::Null`: the null value.
#[verifier::external_body]
pub(crate) fn null() -> (value: Value)
    ensures
        json(value) == Json::Null,
{
    Value::Null
}

/// `Value::from` on a `bool`: the boolean `b`.
#[verifier::external_body]
pub(crate) fn boolean(b: bool) -> (value: Value)
    ensures
        json(value) == Json::Bool(b),
{
    Value::from(b)
}

/// `Value::from` on a `u64`: the integer `n`.
#[verifier::external_body]
pub(crate) fn integer(n: u64) -> (value: Value)
    ensures
        json(value) == integer_value(n as int),
{
    Value::from(n)
}

/// `Number::from_f64` on the double that equals `n`: the float `n`. Every `i32`
/// is a double exactly, and none is infinite, so the number is there.
#[verifier::external_body]
fn whole(n: i32) -> (found: Option<Number>)
    ensures
        found is Some && number_of(found->Some_0) == whole_float(n as int),
{
    Number::from_f64(n.into())
}

/// The float `n`.
pub(crate) fn float(n: i32) -> (number: Number)
    ensures
        number_of(number) == whole_float(n as int),
{
    whole(n).unwrap()
}

/// `Value::Number`: the value that is this number.
#[verifier::external_body]
pub(crate) fn numeric(number: Number) -> (value: Value)
    ensures
        json(value) == Json::Number(number_of(number)),
{
    Value::Number(number)
}

/// `Value::from` on a `&str`: the string `s`.
#[verifier::external_body]
pub(crate) fn text(s: &str) -> (value: Value)
    ensures
        json(value) == Json::Text(s@),
{
    Value::from(s)
}

/// `Value::Object`: the object that has the map's entries.
#[verifier::external_body]
pub(crate) fn object(map: serde_json::Map<String, Value>) -> (value: Value)
    ensures
        json(value) == Json::Object(entries(map)),
{
    Value::Object(map)
}

} // verus!
