use datalogic_rs::compile::CompiledLogic;
use datalogic_rs::config::{EvaluationConfig, TruthyEvaluator};
use datalogic_rs::engine::DataLogic;
use datalogic_rs::error::ErrorKind;
use datalogic_rs::node::{CompiledNode, MetadataHint, MissingArg, MissingMin, MissingPaths, ReduceHint};
use datalogic_rs::opcode::OpCode;
use datalogic_rs::path::PathSegment;
use datalogic_rs::value::DataValue;

fn s(t: &str) -> DataValue {
    DataValue::String(t.to_string())
}

fn n(i: i64) -> DataValue {
    DataValue::Number(i)
}

fn arr(items: Vec<DataValue>) -> DataValue {
    DataValue::Array(items)
}

fn obj(pairs: Vec<(&str, DataValue)>) -> DataValue {
    DataValue::Object(pairs.into_iter().map(|(k, v)| (k.to_string(), v)).collect())
}

fn op(name: &str, args: DataValue) -> DataValue {
    obj(vec![(name, args)])
}

fn engine() -> DataLogic {
    DataLogic::new()
}

fn field(k: &str) -> PathSegment {
    PathSegment::Field(k.to_string())
}

fn var_node(scope_level: u32, segments: Vec<PathSegment>, reduce_hint: ReduceHint, metadata_hint: MetadataHint) -> CompiledNode {
    CompiledNode::CompiledVar { scope_level, segments, reduce_hint, metadata_hint, default_value: None }
}

#[test]
fn literals_compile_to_themselves() {
    for v in [DataValue::Null, DataValue::Bool(true), n(3), s("x"), obj(vec![])] {
        let c = CompiledLogic::compile(&v).unwrap();
        assert_eq!(c.root, CompiledNode::Value { value: v });
    }
}

#[test]
fn var_paths_are_parsed() {
    let c = CompiledLogic::compile(&op("var", s("a.0.b"))).unwrap();
    assert_eq!(
        c.root,
        var_node(
            0,
            vec![field("a"), PathSegment::FieldOrIndex("0".to_string(), 0), field("b")],
            ReduceHint::NoHint,
            MetadataHint::NoHint
        )
    );
    let c = CompiledLogic::compile(&op("var", s("current.x"))).unwrap();
    assert_eq!(c.root, var_node(0, vec![field("current"), field("x")], ReduceHint::CurrentPath, MetadataHint::NoHint));
    let c = CompiledLogic::compile(&op("var", s("accumulator"))).unwrap();
    assert_eq!(c.root, var_node(0, vec![field("accumulator")], ReduceHint::Accumulator, MetadataHint::NoHint));
    let c = CompiledLogic::compile(&op("var", n(1))).unwrap();
    assert_eq!(c.root, var_node(0, vec![PathSegment::FieldOrIndex("1".to_string(), 1)], ReduceHint::NoHint, MetadataHint::NoHint));
    let c = CompiledLogic::compile(&op("var", s(""))).unwrap();
    assert_eq!(c.root, var_node(0, vec![], ReduceHint::NoHint, MetadataHint::NoHint));
    let c = CompiledLogic::compile(&op("var", arr(vec![]))).unwrap();
    assert_eq!(c.root, var_node(0, vec![], ReduceHint::NoHint, MetadataHint::NoHint));
}

#[test]
fn var_default_is_kept() {
    let c = CompiledLogic::compile(&op("var", arr(vec![s("x"), n(5)]))).unwrap();
    assert_eq!(
        c.root,
        CompiledNode::CompiledVar {
            scope_level: 0,
            segments: vec![field("x")],
            reduce_hint: ReduceHint::NoHint,
            metadata_hint: MetadataHint::NoHint,
            default_value: Some(Box::new(CompiledNode::Value { value: n(5) })),
        }
    );
    // A computed path stays a builtin operator.
    let c = CompiledLogic::compile(&op("var", op("cat", arr(vec![s("a"), s("b")])))).unwrap();
    assert!(matches!(c.root, CompiledNode::BuiltinOperator { opcode: OpCode::Var, .. }));
}

#[test]
fn val_forms() {
    let c = CompiledLogic::compile(&op("val", s("a.b"))).unwrap();
    assert_eq!(c.root, var_node(0, vec![field("a.b")], ReduceHint::NoHint, MetadataHint::NoHint));
    let c = CompiledLogic::compile(&op("val", s("current"))).unwrap();
    assert_eq!(c.root, var_node(0, vec![field("current")], ReduceHint::Current, MetadataHint::NoHint));
    let c = CompiledLogic::compile(&op("val", arr(vec![s("a"), n(2)]))).unwrap();
    assert_eq!(c.root, var_node(0, vec![field("a"), PathSegment::Index(2)], ReduceHint::NoHint, MetadataHint::NoHint));
    let c = CompiledLogic::compile(&op("val", arr(vec![s("accumulator"), s("7")]))).unwrap();
    assert_eq!(
        c.root,
        var_node(0, vec![field("accumulator"), PathSegment::FieldOrIndex("7".to_string(), 7)], ReduceHint::AccumulatorPath, MetadataHint::NoHint)
    );
    // The scope-level form needs the literal `[level]` array, which only an
    // engine folds into a literal.
    let rule = op("val", arr(vec![arr(vec![n(-2)]), s("index")]));
    let c = CompiledLogic::compile(&rule).unwrap();
    assert!(matches!(c.root, CompiledNode::BuiltinOperator { opcode: OpCode::Val, .. }));
    let c = CompiledLogic::compile_with_static_eval(&rule, &engine()).unwrap();
    assert_eq!(c.root, var_node(2, vec![field("index")], ReduceHint::NoHint, MetadataHint::Index));
    let c = CompiledLogic::compile_with_static_eval(&op("val", arr(vec![arr(vec![n(1)]), s("key")])), &engine()).unwrap();
    assert_eq!(c.root, var_node(1, vec![field("key")], ReduceHint::NoHint, MetadataHint::Key));
    let c = CompiledLogic::compile_with_static_eval(&op("val", arr(vec![arr(vec![n(3)]), s("a"), s("b")])), &engine()).unwrap();
    assert_eq!(c.root, var_node(3, vec![field("a"), field("b")], ReduceHint::NoHint, MetadataHint::NoHint));
    // The empty key keeps its run-time meaning.
    let c = CompiledLogic::compile(&op("val", s(""))).unwrap();
    assert!(matches!(c.root, CompiledNode::BuiltinOperator { opcode: OpCode::Val, .. }));
    // A negative index is not a literal segment.
    let c = CompiledLogic::compile(&op("val", arr(vec![s("a"), n(-1)]))).unwrap();
    assert!(matches!(c.root, CompiledNode::BuiltinOperator { opcode: OpCode::Val, .. }));
}

#[test]
fn exists_forms() {
    let c = CompiledLogic::compile(&op("exists", s("a.b"))).unwrap();
    assert_eq!(c.root, CompiledNode::CompiledExists { scope_level: 0, segments: vec![field("a.b")] });
    let c = CompiledLogic::compile(&op("exists", arr(vec![s("a"), s("b")]))).unwrap();
    assert_eq!(c.root, CompiledNode::CompiledExists { scope_level: 0, segments: vec![field("a"), field("b")] });
    let c = CompiledLogic::compile(&op("exists", arr(vec![s("a"), n(1)]))).unwrap();
    assert!(matches!(c.root, CompiledNode::BuiltinOperator { opcode: OpCode::Exists, .. }));
}

#[test]
fn missing_forms() {
    let c = CompiledLogic::compile(&op("missing", arr(vec![s("a.b"), op("var", s("x"))]))).unwrap();
    match c.root {
        CompiledNode::CompiledMissing { args } => {
            assert_eq!(args.len(), 2);
            assert_eq!(args[0], MissingArg::Static { path: "a.b".to_string(), segments: vec![field("a"), field("b")] });
            assert!(matches!(args[1], MissingArg::Dynamic(CompiledNode::CompiledVar { .. })));
        }
        other => panic!("unexpected {:?}", other),
    }
    let rule = op("missing_some", arr(vec![n(1), arr(vec![s("a"), s("b")])]));
    let c = CompiledLogic::compile(&rule).unwrap();
    match c.root {
        CompiledNode::CompiledMissingSome { paths, .. } => assert!(matches!(paths, MissingPaths::Dynamic(_))),
        other => panic!("unexpected {:?}", other),
    }
    let c = CompiledLogic::compile_with_static_eval(&rule, &engine()).unwrap();
    assert_eq!(
        c.root,
        CompiledNode::CompiledMissingSome {
            min_present: MissingMin::Static(1),
            paths: MissingPaths::Static(vec![("a".to_string(), vec![field("a")]), ("b".to_string(), vec![field("b")])]),
        }
    );
    let c = CompiledLogic::compile_with_static_eval(&op("missing_some", arr(vec![n(-3), arr(vec![s("a"), n(1)])])), &engine()).unwrap();
    match c.root {
        CompiledNode::CompiledMissingSome { min_present, paths } => {
            assert_eq!(min_present, MissingMin::Static(0));
            assert!(matches!(paths, MissingPaths::Dynamic(_)));
        }
        other => panic!("unexpected {:?}", other),
    }
    let c = CompiledLogic::compile(&op("missing_some", arr(vec![]))).unwrap();
    assert_eq!(
        c.root,
        CompiledNode::CompiledMissingSome { min_present: MissingMin::Static(1), paths: MissingPaths::Static(vec![]) }
    );
}

#[test]
fn throw_of_a_literal() {
    let c = CompiledLogic::compile(&op("throw", s("Oops"))).unwrap();
    assert_eq!(c.root, CompiledNode::CompiledThrow { error: obj(vec![("type", s("Oops"))]) });
    let c = CompiledLogic::compile(&op("throw", op("var", s("e")))).unwrap();
    assert!(matches!(c.root, CompiledNode::BuiltinOperator { opcode: OpCode::Throw, .. }));
}

#[test]
fn and_over_a_non_array_is_marked() {
    let c = CompiledLogic::compile(&op("and", n(1))).unwrap();
    assert_eq!(
        c.root,
        CompiledNode::BuiltinOperator {
            opcode: OpCode::And,
            args: vec![CompiledNode::Value { value: obj(vec![("__invalid_args__", DataValue::Bool(true)), ("value", n(1))]) }],
        }
    );
}

#[test]
fn preserve_keeps_raw_arguments() {
    let rule = op("preserve", arr(vec![op("var", s("x")), n(1)]));
    let c = CompiledLogic::compile(&rule).unwrap();
    assert_eq!(
        c.root,
        CompiledNode::BuiltinOperator {
            opcode: OpCode::Preserve,
            args: vec![CompiledNode::Value { value: op("var", s("x")) }, CompiledNode::Value { value: n(1) }],
        }
    );
}

#[test]
fn unknown_operators_and_multi_key_objects() {
    let c = CompiledLogic::compile(&op("my_op", arr(vec![n(1), n(2)]))).unwrap();
    assert_eq!(
        c.root,
        CompiledNode::CustomOperator {
            name: "my_op".to_string(),
            args: vec![CompiledNode::Value { value: n(1) }, CompiledNode::Value { value: n(2) }],
        }
    );
    let two_keys = obj(vec![("a", n(1)), ("b", n(2))]);
    let err = CompiledLogic::compile(&two_keys).err().unwrap();
    assert!(matches!(&err.kind, ErrorKind::InvalidOperator(m) if m == "Unknown Operator"));
    // An error deep inside an array surfaces too.
    let err = CompiledLogic::compile(&arr(vec![n(1), two_keys])).err().unwrap();
    assert_eq!(err.message(), "Invalid operator: Unknown Operator");
}

#[test]
fn preserve_structure_templates() {
    let mut e = DataLogic::with_preserve_structure();
    e.register_operator("double".to_string());
    assert!(e.has_custom_operator("double"));
    assert!(!e.has_custom_operator("triple"));
    let rule = obj(vec![("name", op("var", s("user"))), ("n", n(1))]);
    let c = CompiledLogic::compile_with_static_eval(&rule, &e).unwrap();
    assert_eq!(
        c.root,
        CompiledNode::StructuredObject {
            fields: vec![
                ("name".to_string(), var_node(0, vec![field("user")], ReduceHint::NoHint, MetadataHint::NoHint)),
                ("n".to_string(), CompiledNode::Value { value: n(1) }),
            ],
        }
    );
    let c = CompiledLogic::compile_with_static_eval(&op("result", op("double", n(2))), &e).unwrap();
    assert_eq!(
        c.root,
        CompiledNode::StructuredObject {
            fields: vec![(
                "result".to_string(),
                CompiledNode::CustomOperator { name: "double".to_string(), args: vec![CompiledNode::Value { value: n(2) }] },
            )],
        }
    );
    // Without an engine, unknown keys in preserve mode are templates too.
    let c = CompiledLogic::compile_for_trace(&op("double", n(2)), true).unwrap();
    assert!(matches!(c.root, CompiledNode::StructuredObject { .. }));
}

#[test]
fn engine_compilation_optimises() {
    let rule = op("if", arr(vec![DataValue::Bool(true), op("var", s("a")), s("b")]));
    let plain = CompiledLogic::compile(&rule).unwrap();
    assert!(matches!(plain.root, CompiledNode::BuiltinOperator { opcode: OpCode::If, .. }));
    let optimised = CompiledLogic::compile_with_static_eval(&rule, &engine()).unwrap();
    assert_eq!(optimised.root, var_node(0, vec![field("a")], ReduceHint::NoHint, MetadataHint::NoHint));

    let rule = op("+", arr(vec![s("5"), op("var", s("x"))]));
    let optimised = CompiledLogic::compile_with_static_eval(&rule, &engine()).unwrap();
    assert_eq!(
        optimised.root,
        CompiledNode::BuiltinOperator {
            opcode: OpCode::Add,
            args: vec![
                CompiledNode::Value { value: n(5) },
                var_node(0, vec![field("x")], ReduceHint::NoHint, MetadataHint::NoHint),
            ],
        }
    );
}

#[test]
fn literal_arrays_fold_only_with_an_engine() {
    let rule = arr(vec![n(1), arr(vec![s("x")])]);
    let plain = CompiledLogic::compile(&rule).unwrap();
    assert!(matches!(plain.root, CompiledNode::Array { .. }));
    let folded = CompiledLogic::compile_with_static_eval(&rule, &engine()).unwrap();
    assert_eq!(folded.root, CompiledNode::Value { value: rule });
    let mixed = arr(vec![n(1), op("var", s("x"))]);
    let c = CompiledLogic::compile_with_static_eval(&mixed, &engine()).unwrap();
    assert!(matches!(c.root, CompiledNode::Array { .. }));
}

#[test]
fn is_static_reports_data_independence() {
    let c = CompiledLogic::compile(&op("+", arr(vec![n(1), n(2)]))).unwrap();
    assert!(c.is_static());
    let c = CompiledLogic::compile(&op("+", arr(vec![n(1), op("var", s("x"))]))).unwrap();
    assert!(!c.is_static());
    let c = CompiledLogic::new(CompiledNode::Value { value: DataValue::Null });
    assert!(c.is_static());
}

#[test]
fn engine_settings_and_compile() {
    let e = DataLogic::default();
    assert!(!e.preserve_structure());
    assert_eq!(*e.config(), EvaluationConfig::default());
    let strict = DataLogic::with_config(EvaluationConfig::new().with_truthy_evaluator(TruthyEvaluator::StrictBoolean));
    assert_eq!(strict.config().truthy_evaluator, TruthyEvaluator::StrictBoolean);
    // Under strict truthiness 0 is true, so the `if` keeps its first branch.
    let rule = op("if", arr(vec![n(0), op("var", s("a")), op("var", s("b"))]));
    let c = strict.compile(&rule).unwrap();
    assert_eq!(c.root, var_node(0, vec![field("a")], ReduceHint::NoHint, MetadataHint::NoHint));
    let c = e.compile(&rule).unwrap();
    assert_eq!(c.root, var_node(0, vec![field("b")], ReduceHint::NoHint, MetadataHint::NoHint));
    let both = DataLogic::with_config_and_structure(EvaluationConfig::strict(), true);
    assert!(both.preserve_structure());
    let mut reg = DataLogic::new();
    reg.register_operator("f".to_string());
    reg.register_operator("f".to_string());
    assert!(reg.has_custom_operator("f"));
    let c = reg.compile(&op("f", n(1))).unwrap();
    assert!(matches!(c.root, CompiledNode::CustomOperator { .. }));
}

#[test]
fn engine_builder() {
    let e = DataLogic::builder()
        .config(EvaluationConfig::safe_arithmetic())
        .preserve_structure(true)
        .add_operator("f".to_string())
        .add_operator("f".to_string())
        .build();
    assert!(e.preserve_structure());
    assert_eq!(*e.config(), EvaluationConfig::safe_arithmetic());
    assert!(e.has_custom_operator("f"));
    assert!(!e.has_custom_operator("g"));
    let plain = datalogic_rs::engine::DataLogicBuilder::default().build();
    assert!(!plain.preserve_structure());
    assert!(!plain.has_custom_operator("f"));
}
