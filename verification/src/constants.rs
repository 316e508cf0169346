//! Common error messages and the errors built from them.

use vstd::prelude::*;
use crate::error::{Error, ErrorKind};
use crate::value::{DataValue, JsonValue, pairs_view};

verus! {

broadcast use {vstd::string::group_string_axioms, crate::value::lemma_pairs_view};

/// Message of the canonical invalid-arguments error.
pub const INVALID_ARGS: &'static str = "Invalid Arguments";

/// Type tag of the not-a-number error.
pub const NAN_ERROR: &'static str = "NaN";

/// The error `{"type": "NaN"}` raised when a number is required.
pub fn nan_error() -> (r: Error)
    ensures
        (r.kind matches ErrorKind::Thrown(v) && v@ == JsonValue::Object(
            seq![("type"@, JsonValue::Str(NAN_ERROR@))],
        )),
        r.operator is None,
        r.path@.len() == 0,
{
    let entries = vec![(String::from_str("type"), DataValue::String(String::from_str(NAN_ERROR)))];
    assert(pairs_view(entries@) =~= seq![("type"@, JsonValue::Str(NAN_ERROR@))]);
    Error::thrown(DataValue::Object(entries))
}

/// The canonical invalid-arguments error.
pub fn invalid_args() -> (r: Error)
    ensures
        (r.kind matches ErrorKind::InvalidArguments(m) && m@ == INVALID_ARGS@),
        r.operator is None,
        r.path@.len() == 0,
{
    Error::invalid_arguments(String::from_str(INVALID_ARGS))
}

} // verus!
