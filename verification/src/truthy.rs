//! Truthiness and integer coercion of values.

use vstd::prelude::*;
use crate::config::{NumericCoercionConfig, TruthyEvaluator};
use crate::text::{parse_i64, spec_parse_i64};
use crate::value::{DataValue, JsonValue};

verus! {

/// JavaScript truthiness: `null`, `false`, `0`, `""`, `[]` and `{}` are false.
pub open spec fn truthy_js_spec(v: JsonValue) -> bool {
    match v {
        JsonValue::Null => false,
        JsonValue::Bool(b) => b,
        JsonValue::Number(n) => n != 0,
        JsonValue::Str(s) => s.len() > 0,
        JsonValue::Array(items) => items.len() > 0,
        JsonValue::Object(pairs) => pairs.len() > 0,
    }
}

/// Truthiness under the given rules.
pub open spec fn truthy_spec(v: JsonValue, evaluator: TruthyEvaluator) -> bool {
    match evaluator {
        TruthyEvaluator::JavaScript | TruthyEvaluator::Python => truthy_js_spec(v),
        TruthyEvaluator::StrictBoolean => match v {
            JsonValue::Null => false,
            JsonValue::Bool(b) => b,
            _ => true,
        },
    }
}

/// JavaScript-style truthiness of a value.
pub fn truthy_js(v: &DataValue) -> (r: bool)
    ensures
        r == truthy_js_spec(v@),
{
    match v {
        DataValue::Null => false,
        DataValue::Bool(b) => *b,
        DataValue::Number(n) => *n != 0,
        DataValue::String(s) => {
            assert(v@ == JsonValue::Str(s@));
            !s.as_str().is_empty()
        },
        DataValue::Array(items) => {
            assert(v@ == JsonValue::Array(crate::value::values_view(items@)));
            proof {
                crate::value::lemma_values_view(items@);
            }
            !items.is_empty()
        },
        DataValue::Object(pairs) => {
            assert(v@ == JsonValue::Object(crate::value::pairs_view(pairs@)));
            proof {
                crate::value::lemma_pairs_view(pairs@);
            }
            !pairs.is_empty()
        },
    }
}

/// Truthiness of a value under the given rules.
pub fn is_truthy(v: &DataValue, evaluator: TruthyEvaluator) -> (r: bool)
    ensures
        r == truthy_spec(v@, evaluator),
{
    match evaluator {
        TruthyEvaluator::JavaScript | TruthyEvaluator::Python => truthy_js(v),
        TruthyEvaluator::StrictBoolean => match v {
            DataValue::Null => false,
            DataValue::Bool(b) => *b,
            _ => true,
        },
    }
}

/// The integer a value coerces to under the given switches, if any.
pub open spec fn coerce_integer_spec(v: JsonValue, cfg: NumericCoercionConfig) -> Option<i64> {
    match v {
        JsonValue::Number(n) => Some(n as i64),
        JsonValue::Str(s) => if s.len() == 0 && cfg.empty_string_to_zero {
            Some(0)
        } else {
            spec_parse_i64(s)
        },
        JsonValue::Bool(b) => if cfg.bool_to_number {
            Some(if b { 1 } else { 0 })
        } else {
            None
        },
        JsonValue::Null => if cfg.null_to_zero {
            Some(0)
        } else {
            None
        },
        _ => None,
    }
}

/// Coerces a value to an integer: numbers as they are, decimal strings by
/// their value, and (when switched on) `""`, `null` and booleans.
pub fn try_coerce_to_integer_cfg(v: &DataValue, cfg: &NumericCoercionConfig) -> (r: Option<i64>)
    ensures
        r == coerce_integer_spec(v@, *cfg),
{
    match v {
        DataValue::Number(n) => Some(*n),
        DataValue::String(s) => {
            assert(v@ == JsonValue::Str(s@));
            if s.as_str().is_empty() && cfg.empty_string_to_zero {
                Some(0)
            } else {
                parse_i64(s.as_str())
            }
        },
        DataValue::Bool(b) => {
            if cfg.bool_to_number {
                Some(if *b { 1 } else { 0 })
            } else {
                None
            }
        },
        DataValue::Null => {
            if cfg.null_to_zero {
                Some(0)
            } else {
                None
            }
        },
        _ => None,
    }
}

} // verus!
