use datalogic_rs::config::{NumericCoercionConfig, TruthyEvaluator};
use datalogic_rs::truthy::{is_truthy, truthy_js, try_coerce_to_integer_cfg};
use datalogic_rs::value::DataValue;

fn s(t: &str) -> DataValue {
    DataValue::String(t.to_string())
}

#[test]
fn truthiness_matches_default() {
    assert!(!truthy_js(&DataValue::Null));
    assert!(!truthy_js(&DataValue::Bool(false)));
    assert!(truthy_js(&DataValue::Bool(true)));
    assert!(!truthy_js(&DataValue::Number(0)));
    assert!(truthy_js(&DataValue::Number(1)));
    assert!(!truthy_js(&s("")));
    assert!(truthy_js(&s("x")));
    assert!(!truthy_js(&DataValue::Array(vec![])));
    assert!(truthy_js(&DataValue::Array(vec![DataValue::Number(1)])));
    assert!(!truthy_js(&DataValue::Object(vec![])));
    assert!(truthy_js(&DataValue::Object(vec![("a".to_string(), DataValue::Number(1))])));
}

#[test]
fn strict_boolean_truthiness() {
    let t = TruthyEvaluator::StrictBoolean;
    assert!(!is_truthy(&DataValue::Null, t));
    assert!(!is_truthy(&DataValue::Bool(false), t));
    assert!(is_truthy(&DataValue::Number(0), t));
    assert!(is_truthy(&s(""), t));
    assert!(is_truthy(&DataValue::Array(vec![]), t));
    assert!(!is_truthy(&DataValue::Number(0), TruthyEvaluator::JavaScript));
    assert!(!is_truthy(&s(""), TruthyEvaluator::Python));
}

#[test]
fn integer_coercion_follows_the_switches() {
    let lenient = NumericCoercionConfig::default();
    let strict = NumericCoercionConfig {
        empty_string_to_zero: false,
        null_to_zero: false,
        bool_to_number: false,
        strict_numeric: true,
        undefined_to_zero: false,
    };
    assert_eq!(try_coerce_to_integer_cfg(&DataValue::Number(-4), &lenient), Some(-4));
    assert_eq!(try_coerce_to_integer_cfg(&s("42"), &lenient), Some(42));
    assert_eq!(try_coerce_to_integer_cfg(&s("+7"), &lenient), Some(7));
    assert_eq!(try_coerce_to_integer_cfg(&s("4x"), &lenient), None);
    assert_eq!(try_coerce_to_integer_cfg(&s(""), &lenient), Some(0));
    assert_eq!(try_coerce_to_integer_cfg(&s(""), &strict), None);
    assert_eq!(try_coerce_to_integer_cfg(&DataValue::Null, &lenient), Some(0));
    assert_eq!(try_coerce_to_integer_cfg(&DataValue::Null, &strict), None);
    assert_eq!(try_coerce_to_integer_cfg(&DataValue::Bool(true), &lenient), Some(1));
    assert_eq!(try_coerce_to_integer_cfg(&DataValue::Bool(true), &strict), None);
    assert_eq!(try_coerce_to_integer_cfg(&DataValue::Array(vec![]), &lenient), None);
    assert_eq!(try_coerce_to_integer_cfg(&s("9223372036854775807"), &lenient), Some(i64::MAX));
    assert_eq!(try_coerce_to_integer_cfg(&s("-9223372036854775808"), &lenient), Some(i64::MIN));
    assert_eq!(try_coerce_to_integer_cfg(&s("9223372036854775808"), &lenient), None);
}
