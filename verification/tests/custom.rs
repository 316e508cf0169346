use datalogic_rs::engine::DataLogic;
use datalogic_rs::error::ErrorKind;
use datalogic_rs::value::DataValue;

fn n(i: i64) -> DataValue {
    DataValue::Number(i)
}

fn s(t: &str) -> DataValue {
    DataValue::String(t.to_string())
}

fn arr(items: Vec<DataValue>) -> DataValue {
    DataValue::Array(items)
}

fn op(name: &str, args: DataValue) -> DataValue {
    DataValue::Object(vec![(name.to_string(), args)])
}

/// `multiply_all`: the product of its arguments.
fn multiply_all_rule() -> DataValue {
    op(
        "reduce",
        arr(vec![
            op("var", s("")),
            op("*", arr(vec![op("var", s("current")), op("var", s("accumulator"))])),
            n(1),
        ]),
    )
}

#[test]
fn test_custom_operator() {
    let mut dl = DataLogic::new();
    dl.register_operator("multiply_all".to_string());
    let multiply_all = dl.rule_operator(&multiply_all_rule()).unwrap();
    let operators = vec![("multiply_all".to_string(), multiply_all)];
    let result = dl
        .evaluate_value_with_operators(&op("multiply_all", arr(vec![n(2), n(3), n(4)])), &DataValue::Object(vec![]), &operators)
        .unwrap();
    assert_eq!(result.as_i64().unwrap() as f64, 24.0);
}

#[test]
fn custom_operator_sees_evaluated_arguments_and_unknown_names_fail() {
    let mut dl = DataLogic::new();
    dl.register_operator("multiply_all".to_string());
    dl.register_operator("missing_impl".to_string());
    let operators = vec![("multiply_all".to_string(), dl.rule_operator(&multiply_all_rule()).unwrap())];
    let data = DataValue::Object(vec![("x".to_string(), n(5))]);
    let rule = op("multiply_all", arr(vec![op("var", s("x")), n(2)]));
    assert_eq!(dl.evaluate_value_with_operators(&rule, &data, &operators), Ok(n(10)));
    let rule = op("missing_impl", arr(vec![n(1)]));
    assert_eq!(
        dl.evaluate_value_with_operators(&rule, &data, &operators).map_err(|e| e.kind),
        Err(ErrorKind::InvalidOperator("missing_impl".to_string()))
    );
    // Without the operator set, the registered name has no implementation.
    let rule = op("multiply_all", arr(vec![n(1)]));
    assert_eq!(
        dl.evaluate_value(&rule, &data).map_err(|e| e.kind),
        Err(ErrorKind::InvalidOperator("multiply_all".to_string()))
    );
}
