use datalogic_rs::compile::CompiledLogic;
use datalogic_rs::config::{EvaluationConfig, NanHandling};
use datalogic_rs::context::{apply_calls, run_guarded, DataContextStack, GuardStep, StackCall};
use datalogic_rs::engine::DataLogic;
use datalogic_rs::error::ErrorKind;
use datalogic_rs::eval::data_eq;
use datalogic_rs::value::DataValue;

fn s(t: &str) -> DataValue {
    DataValue::String(t.to_string())
}

fn n(i: i64) -> DataValue {
    DataValue::Number(i)
}

fn arr(items: Vec<DataValue>) -> DataValue {
    DataValue::Array(items)
}

fn obj(pairs: Vec<(&str, DataValue)>) -> DataValue {
    DataValue::Object(pairs.into_iter().map(|(k, v)| (k.to_string(), v)).collect())
}

fn op(name: &str, args: DataValue) -> DataValue {
    obj(vec![(name, args)])
}

fn eval(logic: DataValue, data: DataValue) -> Result<DataValue, ErrorKind> {
    DataLogic::new().evaluate_value(&logic, &data).map_err(|e| e.kind)
}

#[test]
fn readme_rule_age_check() {
    let rule = op(">=", arr(vec![op("var", s("age")), n(18)]));
    assert_eq!(eval(rule, obj(vec![("age", n(21))])), Ok(DataValue::Bool(true)));
    let rule = op(">=", arr(vec![op("var", s("age")), n(18)]));
    assert_eq!(eval(rule, obj(vec![("age", n(12))])), Ok(DataValue::Bool(false)));
}

#[test]
fn compile_once_evaluate_many() {
    let engine = DataLogic::new();
    let compiled = engine.compile(&op("==", arr(vec![op("var", s("x")), n(1)]))).unwrap();
    assert_eq!(engine.evaluate(&compiled, &obj(vec![("x", n(1))])), Ok(DataValue::Bool(true)));
    assert_eq!(engine.evaluate(&compiled, &obj(vec![("x", s("1"))])), Ok(DataValue::Bool(true)));
    assert_eq!(engine.evaluate(&compiled, &obj(vec![("x", n(2))])), Ok(DataValue::Bool(false)));
}

#[test]
fn var_paths_defaults_and_missing() {
    let data = obj(vec![("a", obj(vec![("b", arr(vec![n(10), n(20)]))]))]);
    assert_eq!(eval(op("var", s("a.b.1")), data), Ok(n(20)));
    let data = obj(vec![("a", n(1))]);
    assert_eq!(eval(op("var", arr(vec![s("z"), s("dflt")])), data), Ok(s("dflt")));
    assert_eq!(eval(op("var", s("z")), obj(vec![])), Ok(DataValue::Null));
    assert_eq!(eval(op("var", arr(vec![])), n(7)), Ok(n(7)));
}

#[test]
fn if_and_or_are_lazy() {
    let rule = op("if", arr(vec![DataValue::Bool(false), op("throw", s("no")), s("else")]));
    assert_eq!(eval(rule, DataValue::Null), Ok(s("else")));
    let rule = op("if", arr(vec![op("var", s("c")), s("yes"), s("no")]));
    assert_eq!(eval(rule, obj(vec![("c", n(0))])), Ok(s("no")));
    let rule = op("and", arr(vec![n(1), n(0), op("throw", s("no"))]));
    assert_eq!(eval(rule, DataValue::Null), Ok(n(0)));
    let rule = op("or", arr(vec![n(0), s(""), s("x")]));
    assert_eq!(eval(rule, DataValue::Null), Ok(s("x")));
    let rule = op("or", arr(vec![]));
    assert_eq!(eval(rule, DataValue::Null), Ok(DataValue::Null));
}

#[test]
fn equality_and_comparison() {
    assert_eq!(eval(op("===", arr(vec![n(1), s("1")])), DataValue::Null), Ok(DataValue::Bool(false)));
    assert_eq!(eval(op("!=", arr(vec![n(1), s("1")])), DataValue::Null), Ok(DataValue::Bool(false)));
    assert_eq!(eval(op("==", arr(vec![n(1), DataValue::Bool(true)])), DataValue::Null), Ok(DataValue::Bool(true)));
    assert_eq!(eval(op("<", arr(vec![n(1), n(2), n(3)])), DataValue::Null), Ok(DataValue::Bool(true)));
    assert_eq!(eval(op("<", arr(vec![n(1), n(3), n(3)])), DataValue::Null), Ok(DataValue::Bool(false)));
    assert_eq!(eval(op(">", arr(vec![s("a"), n(1)])), DataValue::Null), Ok(DataValue::Bool(false)));
    assert_eq!(
        eval(op("===", arr(vec![n(1)])), DataValue::Null),
        Err(ErrorKind::InvalidArguments("Invalid Arguments".to_string()))
    );
}

#[test]
fn integer_arithmetic() {
    assert_eq!(eval(op("+", arr(vec![n(1), s("2"), n(3)])), DataValue::Null), Ok(n(6)));
    assert_eq!(eval(op("*", arr(vec![n(4), n(5)])), DataValue::Null), Ok(n(20)));
    assert_eq!(eval(op("-", arr(vec![n(4), n(9)])), DataValue::Null), Ok(n(-5)));
    assert_eq!(eval(op("-", arr(vec![n(4)])), DataValue::Null), Ok(n(-4)));
    assert_eq!(eval(op("max", arr(vec![n(4), n(9), n(2)])), DataValue::Null), Ok(n(9)));
    assert_eq!(eval(op("min", arr(vec![n(4), n(9), n(2)])), DataValue::Null), Ok(n(2)));
    assert_eq!(
        eval(op("+", arr(vec![n(i64::MAX), n(1)])), DataValue::Null),
        Err(ErrorKind::ArithmeticError("Overflow".to_string()))
    );
    let nan = obj(vec![("type", s("NaN"))]);
    assert_eq!(eval(op("+", arr(vec![n(1), s("x")])), DataValue::Null), Err(ErrorKind::Thrown(nan)));
}

#[test]
fn nan_settings_decide_non_numbers() {
    let rule = op("+", arr(vec![n(1), s("x"), n(2)]));
    let compiled = CompiledLogic::compile(&rule).unwrap();
    let ignore = DataLogic::with_config(EvaluationConfig::new().with_nan_handling(NanHandling::IgnoreValue));
    assert_eq!(ignore.evaluate(&compiled, &DataValue::Null), Ok(n(3)));
    let zero = DataLogic::with_config(EvaluationConfig::new().with_nan_handling(NanHandling::CoerceToZero));
    assert_eq!(zero.evaluate(&compiled, &DataValue::Null), Ok(n(3)));
    let null = DataLogic::with_config(EvaluationConfig::new().with_nan_handling(NanHandling::ReturnNull));
    assert_eq!(null.evaluate(&compiled, &DataValue::Null), Ok(DataValue::Null));
}

#[test]
fn cat_negation_throw_and_templates() {
    assert_eq!(eval(op("cat", arr(vec![s("a"), n(1), DataValue::Null, DataValue::Bool(true)])), DataValue::Null), Ok(s("a1true")));
    assert_eq!(eval(op("!", arr(vec![n(0)])), DataValue::Null), Ok(DataValue::Bool(true)));
    assert_eq!(eval(op("!!", arr(vec![arr(vec![])])), DataValue::Null), Ok(DataValue::Bool(false)));
    assert_eq!(eval(arr(vec![n(1), op("var", s("x"))]), obj(vec![("x", n(2))])), Ok(arr(vec![n(1), n(2)])));
    let thrown = eval(op("throw", s("bad")), DataValue::Null);
    assert_eq!(thrown, Err(ErrorKind::Thrown(obj(vec![("type", s("bad"))]))));
    let unknown = DataLogic::new().evaluate(
        &CompiledLogic::compile(&op("now", arr(vec![]))).unwrap(),
        &DataValue::Null,
    );
    assert_eq!(unknown.map_err(|e| e.kind), Err(ErrorKind::InvalidOperator("now".to_string())));
}

#[test]
fn structural_equality_of_values() {
    let a = obj(vec![("k", arr(vec![n(1), s("x")]))]);
    let b = obj(vec![("k", arr(vec![n(1), s("x")]))]);
    let c = obj(vec![("k", arr(vec![n(1), s("y")]))]);
    assert!(data_eq(&a, &b));
    assert!(!data_eq(&a, &c));
}

#[test]
fn context_calls_keep_root_and_count_depth() {
    let root = n(1);
    let x = n(2);
    let mut ctx = DataContextStack::new(&root);
    let calls = vec![
        StackCall::Push(&x),
        StackCall::PushIndexed(&x, 0),
        StackCall::ReplaceIndexed(&x, 1),
        StackCall::PushErrorStep(3),
        StackCall::Pop,
        StackCall::PushReduce(&x, &x),
    ];
    apply_calls(&mut ctx, &calls);
    assert_eq!(ctx.depth(), 2);
    assert!(std::ptr::eq(ctx.root_input(), &root));
}

#[test]
fn guarded_iteration_restores_depth() {
    let root = n(1);
    let x = n(2);
    let mut ctx = DataContextStack::new(&root);
    ctx.push(&x);
    let ctx = run_guarded(ctx, &vec![]);
    assert_eq!(ctx.depth(), 1);
    let ctx = run_guarded(ctx, &vec![GuardStep::Indexed(&x, 0), GuardStep::Indexed(&x, 1)]);
    assert_eq!(ctx.depth(), 1);
}

#[test]
fn iterating_operators() {
    let data = obj(vec![("xs", arr(vec![n(1), n(2), n(3)]))]);
    let double = op("map", arr(vec![op("var", s("xs")), op("*", arr(vec![op("var", s("")), n(2)]))]));
    assert_eq!(eval(double, data), Ok(arr(vec![n(2), n(4), n(6)])));
    let data = obj(vec![("xs", arr(vec![n(1), n(2), n(3)]))]);
    let odd = op("filter", arr(vec![op("var", s("xs")), op("==", arr(vec![op("var", s("")), n(2)]))]));
    assert_eq!(eval(odd, data), Ok(arr(vec![n(2)])));
    let data = obj(vec![("xs", arr(vec![n(1), n(2), n(3)]))]);
    let sum = op(
        "reduce",
        arr(vec![
            op("var", s("xs")),
            op("+", arr(vec![op("var", s("current")), op("var", s("accumulator"))])),
            n(10),
        ]),
    );
    assert_eq!(eval(sum, data), Ok(n(16)));
    let pos = |name: &str| op(name, arr(vec![arr(vec![n(1), n(2)]), op(">", arr(vec![op("var", s("")), n(1)]))]));
    assert_eq!(eval(pos("all"), DataValue::Null), Ok(DataValue::Bool(false)));
    assert_eq!(eval(pos("some"), DataValue::Null), Ok(DataValue::Bool(true)));
    assert_eq!(eval(pos("none"), DataValue::Null), Ok(DataValue::Bool(false)));
    let empty_all = op("all", arr(vec![arr(vec![]), DataValue::Bool(true)]));
    assert_eq!(eval(empty_all, DataValue::Null), Ok(DataValue::Bool(false)));
    let over_non_array = op("map", arr(vec![n(5), op("var", s(""))]));
    assert_eq!(eval(over_non_array, DataValue::Null), Ok(arr(vec![])));
}

#[test]
fn missing_and_missing_some() {
    let data = obj(vec![("a", n(1)), ("b", s("")), ("c", DataValue::Null)]);
    let rule = op("missing", arr(vec![s("a"), s("b"), s("c"), s("d")]));
    assert_eq!(eval(rule, data), Ok(arr(vec![s("b"), s("c"), s("d")])));
    let data = obj(vec![("a", n(1))]);
    let rule = op("missing_some", arr(vec![n(1), arr(vec![s("a"), s("b")])]));
    assert_eq!(eval(rule, data), Ok(arr(vec![])));
    let data = obj(vec![("a", n(1))]);
    let rule = op("missing_some", arr(vec![n(2), arr(vec![s("a"), s("b")])]));
    assert_eq!(eval(rule, data), Ok(arr(vec![s("b")])));
}

#[test]
fn merge_and_in() {
    let rule = op("merge", arr(vec![arr(vec![n(1), n(2)]), n(3), arr(vec![arr(vec![n(4)])])]));
    assert_eq!(eval(rule, DataValue::Null), Ok(arr(vec![n(1), n(2), n(3), arr(vec![n(4)])])));
    assert_eq!(eval(op("in", arr(vec![s("ell"), s("hello")])), DataValue::Null), Ok(DataValue::Bool(true)));
    assert_eq!(eval(op("in", arr(vec![n(2), arr(vec![n(1), n(2)])])), DataValue::Null), Ok(DataValue::Bool(true)));
    assert_eq!(eval(op("in", arr(vec![n(5), arr(vec![n(1), n(2)])])), DataValue::Null), Ok(DataValue::Bool(false)));
}

#[test]
fn static_operators_fold_at_compile() {
    let engine = DataLogic::new();
    let compiled = engine.compile(&op("+", arr(vec![n(1), n(2)]))).unwrap();
    assert_eq!(compiled.root, datalogic_rs::node::CompiledNode::Value { value: n(3) });
    let compiled = CompiledLogic::compile(&op("+", arr(vec![n(1), n(2)]))).unwrap();
    assert!(matches!(compiled.root, datalogic_rs::node::CompiledNode::BuiltinOperator { .. }));
    assert_eq!(engine.evaluate(&compiled, &DataValue::Null), Ok(n(3)));
}

#[test]
fn coalesce_try_type_length_abs() {
    assert_eq!(eval(op("??", arr(vec![DataValue::Null, op("var", s("a")), n(3)])), obj(vec![])), Ok(n(3)));
    let rule = op("try", arr(vec![op("throw", s("e1")), n(7)]));
    assert_eq!(eval(rule, DataValue::Null), Ok(n(7)));
    let rule = op("try", arr(vec![op("throw", s("e1")), op("throw", s("e2"))]));
    assert_eq!(eval(rule, DataValue::Null), Err(ErrorKind::Thrown(obj(vec![("type", s("e2"))]))));
    assert_eq!(eval(op("type", arr(vec![arr(vec![])])), DataValue::Null), Ok(s("array")));
    assert_eq!(eval(op("type", op("var", s("x"))), obj(vec![("x", s("t"))])), Ok(s("string")));
    assert_eq!(eval(op("length", s("héllo")), DataValue::Null), Ok(n(5)));
    assert_eq!(eval(op("length", arr(vec![arr(vec![n(1), n(2)])])), DataValue::Null), Ok(n(2)));
    assert_eq!(eval(op("abs", n(-4)), DataValue::Null), Ok(n(4)));
    assert_eq!(
        eval(op("abs", n(i64::MIN)), DataValue::Null),
        Err(ErrorKind::ArithmeticError("Overflow".to_string()))
    );
}

#[test]
fn run_time_paths_throw_and_affixes() {
    let data = obj(vec![("k", s("a.b")), ("a", obj(vec![("b", n(9))]))]);
    let rule = op("var", arr(vec![op("var", s("k"))]));
    assert_eq!(eval(rule, data), Ok(n(9)));
    let data = obj(vec![("k", s("zz"))]);
    let rule = op("var", arr(vec![op("var", s("k")), s("dflt")]));
    assert_eq!(eval(rule, data), Ok(s("dflt")));
    let data = obj(vec![("a", obj(vec![("b", n(1))])), ("k", s("b"))]);
    let rule = op("exists", arr(vec![s("a"), op("var", s("k"))]));
    assert_eq!(eval(rule, data), Ok(DataValue::Bool(true)));
    let rule = op("throw", op("var", s("e")));
    assert_eq!(eval(rule, obj(vec![("e", s("boom"))])), Err(ErrorKind::Thrown(obj(vec![("type", s("boom"))]))));
    let rule = op("throw", op("var", s("e")));
    assert_eq!(eval(rule, obj(vec![("e", n(5))])), Err(ErrorKind::Thrown(n(5))));
    assert_eq!(eval(op("starts_with", arr(vec![s("hello"), s("he")])), DataValue::Null), Ok(DataValue::Bool(true)));
    assert_eq!(eval(op("ends_with", arr(vec![s("hello"), s("lo")])), DataValue::Null), Ok(DataValue::Bool(true)));
    assert_eq!(eval(op("ends_with", arr(vec![s("hello"), s("he")])), DataValue::Null), Ok(DataValue::Bool(false)));
}

#[test]
fn remainder_and_integer_rounding() {
    assert_eq!(eval(op("%", arr(vec![n(7), n(3)])), DataValue::Null), Ok(n(1)));
    assert_eq!(eval(op("%", arr(vec![n(-7), n(3)])), DataValue::Null), Ok(n(-1)));
    assert_eq!(eval(op("%", arr(vec![n(7), n(-3)])), DataValue::Null), Ok(n(1)));
    assert_eq!(eval(op("%", arr(vec![n(7), n(0)])), DataValue::Null), Ok(DataValue::Null));
    let strict = DataLogic::with_config(
        EvaluationConfig::new().with_division_by_zero(datalogic_rs::config::DivisionByZeroHandling::ThrowError),
    );
    let compiled = CompiledLogic::compile(&op("%", arr(vec![n(7), n(0)]))).unwrap();
    assert_eq!(
        strict.evaluate(&compiled, &DataValue::Null).map_err(|e| e.kind),
        Err(ErrorKind::ArithmeticError("Division by zero".to_string()))
    );
    assert_eq!(eval(op("ceil", n(4)), DataValue::Null), Ok(n(4)));
    assert_eq!(eval(op("floor", n(-4)), DataValue::Null), Ok(n(-4)));
}

#[test]
fn substr_counts_characters() {
    assert_eq!(eval(op("substr", arr(vec![s("jsonlogic"), n(4)])), DataValue::Null), Ok(s("logic")));
    assert_eq!(eval(op("substr", arr(vec![s("jsonlogic"), n(-5)])), DataValue::Null), Ok(s("logic")));
    assert_eq!(eval(op("substr", arr(vec![s("jsonlogic"), n(1), n(3)])), DataValue::Null), Ok(s("son")));
    assert_eq!(eval(op("substr", arr(vec![s("jsonlogic"), n(4), n(-2)])), DataValue::Null), Ok(s("log")));
    assert_eq!(eval(op("substr", arr(vec![s("héllo"), n(1), n(2)])), DataValue::Null), Ok(s("él")));
    assert_eq!(eval(op("substr", arr(vec![s("abc"), n(10)])), DataValue::Null), Ok(s("")));
}

#[test]
fn case_trim_split_and_slice() {
    assert_eq!(eval(op("upper", s("abc")), DataValue::Null), Ok(s("ABC")));
    assert_eq!(eval(op("lower", s("AbC")), DataValue::Null), Ok(s("abc")));
    assert_eq!(eval(op("trim", s("  x y \n")), DataValue::Null), Ok(s("x y")));
    assert_eq!(
        eval(op("split", arr(vec![s("a,b,,c"), s(",")])), DataValue::Null),
        Ok(arr(vec![s("a"), s("b"), s(""), s("c")]))
    );
    let xs = arr(vec![n(1), n(2), n(3), n(4)]);
    assert_eq!(eval(op("slice", arr(vec![xs, n(1), n(3)])), DataValue::Null), Ok(arr(vec![n(2), n(3)])));
    let xs = arr(vec![n(1), n(2), n(3), n(4)]);
    assert_eq!(eval(op("slice", arr(vec![xs, n(-2)])), DataValue::Null), Ok(arr(vec![n(3), n(4)])));
    assert_eq!(eval(op("slice", arr(vec![s("hello"), n(1), n(-1)])), DataValue::Null), Ok(s("ell")));
    assert_eq!(eval(op("slice", arr(vec![s("hello"), n(3), n(1)])), DataValue::Null), Ok(s("")));
}

#[test]
fn dead_branch_elimination_keeps_the_value() {
    let rule = op(
        "if",
        arr(vec![DataValue::Bool(false), n(1), op("var", s("c")), n(2), DataValue::Bool(true), n(3), n(4)]),
    );
    let plain = CompiledLogic::compile(&rule).unwrap();
    let engine = DataLogic::new();
    let optimised = engine.compile(&rule).unwrap();
    assert_ne!(plain.root, optimised.root);
    for c in [n(0), n(1)] {
        let data = obj(vec![("c", c)]);
        assert_eq!(engine.evaluate(&plain, &data), engine.evaluate(&optimised, &data));
    }
}

#[test]
fn switch_preserve_sort_val_and_division() {
    let rule = op(
        "switch",
        arr(vec![
            op("var", s("s")),
            arr(vec![arr(vec![s("on"), s("yes")]), arr(vec![s("off"), s("no")])]),
            s("other"),
        ]),
    );
    assert_eq!(eval(rule, obj(vec![("s", s("off"))])), Ok(s("no")));
    let rule = op("switch", arr(vec![op("var", s("s")), arr(vec![arr(vec![s("on"), s("yes")])]), s("other")]));
    assert_eq!(eval(rule, obj(vec![("s", s("x"))])), Ok(s("other")));
    let rule = op("switch", arr(vec![n(1), arr(vec![])]));
    assert_eq!(eval(rule, DataValue::Null), Ok(DataValue::Null));

    assert_eq!(eval(op("preserve", obj(vec![("a", n(1))])), DataValue::Null), Ok(obj(vec![("a", n(1))])));
    assert_eq!(eval(op("preserve", arr(vec![n(1), n(2)])), DataValue::Null), Ok(arr(vec![n(1), n(2)])));

    assert_eq!(eval(op("sort", arr(vec![arr(vec![n(3), n(1), n(2)])])), DataValue::Null), Ok(arr(vec![n(1), n(2), n(3)])));
    assert_eq!(
        eval(op("sort", arr(vec![arr(vec![s("pear"), s("apple"), s("app")])])), DataValue::Null),
        Ok(arr(vec![s("app"), s("apple"), s("pear")]))
    );
    assert_eq!(
        eval(op("sort", arr(vec![arr(vec![s("a"), n(1)])])), DataValue::Null),
        Err(ErrorKind::InvalidArguments("Invalid Arguments".to_string()))
    );

    let data = obj(vec![("k", s("a")), ("a", obj(vec![("b", n(3))]))]);
    assert_eq!(eval(op("val", arr(vec![op("var", s("k")), s("b")])), data), Ok(n(3)));

    assert_eq!(eval(op("/", arr(vec![n(6), n(3)])), DataValue::Null), Ok(n(2)));
    assert_eq!(eval(op("/", arr(vec![n(-6), n(3)])), DataValue::Null), Ok(n(-2)));
    assert_eq!(
        eval(op("/", arr(vec![n(7), n(2)])), DataValue::Null),
        Err(ErrorKind::ArithmeticError("Non-integer result".to_string()))
    );
    assert_eq!(eval(op("/", arr(vec![n(7), n(0)])), DataValue::Null), Ok(n(i64::MAX)));
    assert_eq!(eval(op("/", arr(vec![n(-7), n(0)])), DataValue::Null), Ok(n(i64::MIN)));
    assert_eq!(eval(op("/", arr(vec![n(0), n(0)])), DataValue::Null), Ok(DataValue::Null));
}

#[test]
fn trim_and_split_edge_cases() {
    assert_eq!(eval(op("trim", s("\u{3000}\t x \u{a0}")), DataValue::Null), Ok(s("x")));
    assert_eq!(eval(op("trim", s(" \n ")), DataValue::Null), Ok(s("")));
    assert_eq!(
        eval(op("split", arr(vec![s("ab"), s("")])), DataValue::Null),
        Ok(arr(vec![s(""), s("a"), s("b"), s("")]))
    );
    assert_eq!(
        eval(op("split", arr(vec![s("a--b---c"), s("--")])), DataValue::Null),
        Ok(arr(vec![s("a"), s("b"), s("-c")]))
    );
    assert_eq!(eval(op("split", arr(vec![s("x,"), s(",")])), DataValue::Null), Ok(arr(vec![s("x"), s("")])));
}
