//! Fixed values that operators hand back often: `null`, the booleans, the
//! empty string, array and object, small non-negative integers, and the
//! type names of the `type` operator.

use vstd::prelude::*;
use crate::path::key_eq;
use crate::value::{DataValue, JsonValue};

verus! {

broadcast use vstd::string::group_string_axioms;

/// The largest integer served by [`singleton_small_int`].
pub const SMALL_INT_MAX: i64 = 32;

/// `null`.
pub fn singleton_null() -> (r: DataValue)
    ensures
        r@ == JsonValue::Null,
{
    DataValue::Null
}

/// `true`.
pub fn singleton_true() -> (r: DataValue)
    ensures
        r@ == JsonValue::Bool(true),
{
    DataValue::Bool(true)
}

/// `false`.
pub fn singleton_false() -> (r: DataValue)
    ensures
        r@ == JsonValue::Bool(false),
{
    DataValue::Bool(false)
}

/// The boolean `b`.
pub fn singleton_bool(b: bool) -> (r: DataValue)
    ensures
        r@ == JsonValue::Bool(b),
{
    if b {
        singleton_true()
    } else {
        singleton_false()
    }
}

/// The empty string.
pub fn singleton_empty_string() -> (r: DataValue)
    ensures
        r@ == JsonValue::Str(Seq::empty()),
{
    DataValue::String(String::new())
}

/// The empty array.
pub fn singleton_empty_array() -> (r: DataValue)
    ensures
        r@ == JsonValue::Array(Seq::empty()),
{
    DataValue::Array(Vec::new())
}

/// The empty object.
pub fn singleton_empty_object() -> (r: DataValue)
    ensures
        r@ == JsonValue::Object(Seq::empty()),
{
    DataValue::Object(Vec::new())
}

/// The integer `i` when `0 <= i <= SMALL_INT_MAX`; `None` otherwise, so
/// that the caller builds the value itself.
pub fn singleton_small_int(i: i64) -> (r: Option<DataValue>)
    ensures
        0 <= i <= SMALL_INT_MAX ==> (r matches Some(v) && v@ == JsonValue::Number(i as int)),
        !(0 <= i <= SMALL_INT_MAX) ==> r is None,
{
    if 0 <= i && i <= SMALL_INT_MAX {
        Some(DataValue::Number(i))
    } else {
        None
    }
}

/// The type names the `type` operator answers with.
pub open spec fn is_type_name(name: Seq<char>) -> bool {
    name == "null"@ || name == "boolean"@ || name == "number"@ || name == "string"@
        || name == "array"@ || name == "object"@ || name == "datetime"@ || name == "duration"@
}

/// The string value of a type name; `null` for any other name.
pub fn singleton_type_name(name: &str) -> (r: DataValue)
    ensures
        is_type_name(name@) ==> r@ == JsonValue::Str(name@),
        !is_type_name(name@) ==> r@ == JsonValue::Null,
{
    if key_eq(name, "null") || key_eq(name, "boolean") || key_eq(name, "number") || key_eq(name, "string")
        || key_eq(name, "array") || key_eq(name, "object") || key_eq(name, "datetime")
        || key_eq(name, "duration") {
        DataValue::String(name.to_owned())
    } else {
        DataValue::Null
    }
}

} // verus!
