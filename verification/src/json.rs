//! Reading JSON values with `serde_json`.

use serde_json::Value;
use vstd::prelude::*;

verus! {

/// `serde_json::Value`, carried as an opaque value.
#[verifier::external_type_specification]
#[verifier::external_body]
pub struct ExValue(serde_json::Value);

/// The members of a JSON object, by key. A value that is not an object has none.
pub uninterp spec fn json_members(value: Value) -> Map<Seq<char>, Value>;

/// The unsigned integer that `serde_json::Value::as_u64` reads from a value, if any.
pub uninterp spec fn json_u64(value: Value) -> Option<u64>;

/// Calls `serde_json::Value::get` with a string key.
///
/// Claimed of it: a member is found exactly where the value is an object that holds the key, and
/// it is the member stored under that key.
#[verifier::external_body]
pub(crate) fn member<'a>(value: &'a Value, key: &str) -> (found: Option<&'a Value>)
    ensures
        found is Some <==> json_members(*value).contains_key(key@),
        found matches Some(held) ==> *held == json_members(*value)[key@],
{
    value.get(key)
}

/// Calls `serde_json::Value::as_u64`.
///
/// Claimed of it: the result is a function of the value alone. Which numbers count as unsigned
/// integers is left to `serde_json`.
#[verifier::external_body]
pub(crate) fn as_u64(value: &Value) -> (number: Option<u64>)
    ensures
        number == json_u64(*value),
{
    value.as_u64()
}

/// Calls `serde_json::Value::clone`.
///
/// Claimed of it: the copy is the same JSON value.
#[verifier::external_body]
pub(crate) fn copy_value(value: &Value) -> (copy: Value)
    ensures
        copy == *value,
{
    value.clone()
}

} // verus!
