use datalogic_rs::config::{
    DivisionByZeroHandling, EvaluationConfig, NanHandling, NumericCoercionConfig, TruthyEvaluator,
};

#[test]
fn default_and_presets() {
    let d = EvaluationConfig::default();
    assert_eq!(d.arithmetic_nan_handling, NanHandling::ThrowError);
    assert_eq!(d.division_by_zero, DivisionByZeroHandling::ReturnBounds);
    assert!(d.loose_equality_errors);
    assert_eq!(d.truthy_evaluator, TruthyEvaluator::JavaScript);
    assert_eq!(d.numeric_coercion, NumericCoercionConfig::default());
    assert_eq!(EvaluationConfig::new(), d);

    let safe = EvaluationConfig::safe_arithmetic();
    assert_eq!(safe.arithmetic_nan_handling, NanHandling::IgnoreValue);
    assert_eq!(safe.division_by_zero, DivisionByZeroHandling::ReturnNull);
    assert!(!safe.loose_equality_errors);

    let strict = EvaluationConfig::strict();
    assert_eq!(strict.division_by_zero, DivisionByZeroHandling::ThrowError);
    assert!(strict.numeric_coercion.strict_numeric);
    assert!(!strict.numeric_coercion.null_to_zero);
}

#[test]
fn builders_change_one_setting() {
    let c = EvaluationConfig::new()
        .with_nan_handling(NanHandling::CoerceToZero)
        .with_division_by_zero(DivisionByZeroHandling::ReturnNull)
        .with_loose_equality_errors(false)
        .with_truthy_evaluator(TruthyEvaluator::StrictBoolean);
    assert_eq!(c.arithmetic_nan_handling, NanHandling::CoerceToZero);
    assert_eq!(c.division_by_zero, DivisionByZeroHandling::ReturnNull);
    assert!(!c.loose_equality_errors);
    assert_eq!(c.truthy_evaluator, TruthyEvaluator::StrictBoolean);
    let coercion = NumericCoercionConfig { null_to_zero: false, ..NumericCoercionConfig::default() };
    let c = c.with_numeric_coercion(coercion);
    assert_eq!(c.numeric_coercion, coercion);
}
