use datalogic_rs::config::TruthyEvaluator;
use datalogic_rs::engine::DataLogic;
use datalogic_rs::node::{CompiledNode, MetadataHint, ReduceHint};
use datalogic_rs::opcode::OpCode;
use datalogic_rs::optimize::{eliminate, fold, node_is_static, optimize, reduce};
use datalogic_rs::path::PathSegment;
use datalogic_rs::value::DataValue;

const JS: TruthyEvaluator = TruthyEvaluator::JavaScript;

fn val(v: DataValue) -> CompiledNode {
    CompiledNode::Value { value: v }
}

fn str_val(s: &str) -> CompiledNode {
    val(DataValue::String(s.to_string()))
}

fn var_node(name: &str) -> CompiledNode {
    CompiledNode::CompiledVar {
        scope_level: 0,
        segments: vec![PathSegment::Field(name.to_string())],
        reduce_hint: ReduceHint::NoHint,
        metadata_hint: MetadataHint::NoHint,
        default_value: None,
    }
}

fn builtin(opcode: OpCode, args: Vec<CompiledNode>) -> CompiledNode {
    CompiledNode::BuiltinOperator { opcode, args }
}

#[test]
fn test_if_true_condition() {
    let node = builtin(OpCode::If, vec![val(DataValue::Bool(true)), var_node("x"), var_node("y")]);
    let (result, _changed) = eliminate(node, JS);
    assert!(matches!(result, CompiledNode::CompiledVar { .. }));
}

#[test]
fn test_if_false_condition() {
    let node = builtin(OpCode::If, vec![val(DataValue::Bool(false)), var_node("x"), var_node("y")]);
    let (result, _changed) = eliminate(node, JS);
    // Should return "y" (the else branch)
    assert!(matches!(result, CompiledNode::CompiledVar { .. }));
}

#[test]
fn test_and_with_true_prefix() {
    let node = builtin(OpCode::And, vec![val(DataValue::Bool(true)), var_node("x")]);
    let (result, _changed) = eliminate(node, JS);
    assert!(matches!(result, CompiledNode::CompiledVar { .. }));
}

#[test]
fn test_and_with_false() {
    let node = builtin(OpCode::And, vec![val(DataValue::Bool(false)), var_node("x")]);
    let (result, _changed) = eliminate(node, JS);
    assert!(matches!(result, CompiledNode::Value { .. }));
}

#[test]
fn test_or_with_true() {
    let node = builtin(OpCode::Or, vec![val(DataValue::Bool(true)), var_node("x")]);
    let (result, _changed) = eliminate(node, JS);
    assert!(matches!(result, CompiledNode::Value { .. }));
}

#[test]
fn test_or_with_false_prefix() {
    let node = builtin(OpCode::Or, vec![val(DataValue::Bool(false)), var_node("x")]);
    let (result, _changed) = eliminate(node, JS);
    assert!(matches!(result, CompiledNode::CompiledVar { .. }));
}

#[test]
fn test_ternary_true() {
    let node = builtin(OpCode::Ternary, vec![val(DataValue::Bool(true)), var_node("x"), var_node("y")]);
    let (result, _changed) = eliminate(node, JS);
    assert!(matches!(result, CompiledNode::CompiledVar { .. }));
}

#[test]
fn test_fold_cat_adjacent() {
    let node = builtin(OpCode::Cat, vec![str_val("hello "), str_val("world"), var_node("x")]);
    let (result, _changed) = fold(node, &DataLogic::new());
    if let CompiledNode::BuiltinOperator { args, .. } = &result {
        assert_eq!(args.len(), 2);
        if let CompiledNode::Value { value } = &args[0] {
            assert_eq!(*value, DataValue::String("hello world".to_string()));
        }
    }
}

#[test]
fn test_precoerce_numeric_string() {
    let node = builtin(OpCode::Add, vec![str_val("5"), var_node("x")]);
    let (result, _changed) = fold(node, &DataLogic::new());
    if let CompiledNode::BuiltinOperator { args, .. } = &result {
        if let CompiledNode::Value { value } = &args[0] {
            assert_eq!(*value, DataValue::Number(5));
        }
    }
}

#[test]
fn test_double_negation() {
    let inner = builtin(OpCode::Not, vec![var_node("x")]);
    let outer = builtin(OpCode::Not, vec![inner]);
    let (result, changed) = reduce(outer);
    assert!(changed);
    if let CompiledNode::BuiltinOperator { opcode, args } = &result {
        assert_eq!(*opcode, OpCode::DoubleNot);
        assert_eq!(args.len(), 1);
    } else {
        panic!("expected BuiltinOperator");
    }
}

#[test]
fn test_idempotent_double_not() {
    let inner = builtin(OpCode::DoubleNot, vec![var_node("x")]);
    let outer = builtin(OpCode::DoubleNot, vec![inner]);
    let (result, changed) = reduce(outer);
    assert!(changed);
    if let CompiledNode::BuiltinOperator { opcode, args } = &result {
        assert_eq!(*opcode, OpCode::DoubleNot);
        assert_eq!(args.len(), 1);
        assert!(matches!(&args[0], CompiledNode::CompiledVar { .. }));
    } else {
        panic!("expected BuiltinOperator");
    }
}

#[test]
fn test_unchanged_when_no_pattern() {
    let node = var_node("x");
    let (_result, changed) = reduce(node);
    assert!(!changed);
}

#[test]
fn if_chain_drops_false_pairs_and_keeps_dynamic_ones() {
    // [false, A, cond, B, C] -> [cond, B, C]
    let node = builtin(
        OpCode::If,
        vec![val(DataValue::Bool(false)), var_node("a"), var_node("c"), var_node("b"), var_node("e")],
    );
    let (result, changed) = eliminate(node, JS);
    assert!(changed);
    assert_eq!(result, builtin(OpCode::If, vec![var_node("c"), var_node("b"), var_node("e")]));

    // [cond, A, true, B, C] -> [cond, A, B]
    let node = builtin(
        OpCode::If,
        vec![var_node("c"), var_node("a"), val(DataValue::Number(1)), var_node("b"), var_node("e")],
    );
    let (result, _) = eliminate(node, JS);
    assert_eq!(result, builtin(OpCode::If, vec![var_node("c"), var_node("a"), var_node("b")]));

    // all conditions false, no else -> null
    let node = builtin(OpCode::If, vec![val(DataValue::Bool(false)), var_node("a")]);
    let (result, _) = eliminate(node, JS);
    assert_eq!(result, val(DataValue::Null));

    // empty if -> null
    let (result, changed) = eliminate(builtin(OpCode::If, vec![]), JS);
    assert!(changed);
    assert_eq!(result, val(DataValue::Null));

    // nothing static -> unchanged
    let node = builtin(OpCode::If, vec![var_node("c"), var_node("a"), var_node("b")]);
    let (result, changed) = eliminate(node, JS);
    assert!(!changed);
    assert_eq!(result, builtin(OpCode::If, vec![var_node("c"), var_node("a"), var_node("b")]));
}

#[test]
fn and_or_keep_the_dynamic_arguments() {
    let node = builtin(OpCode::And, vec![var_node("a"), val(DataValue::Bool(true)), var_node("b")]);
    let (result, changed) = eliminate(node, JS);
    assert!(changed);
    assert_eq!(result, builtin(OpCode::And, vec![var_node("a"), var_node("b")]));

    let node = builtin(OpCode::Or, vec![val(DataValue::Number(0)), val(DataValue::String(String::new()))]);
    let (result, _) = eliminate(node, JS);
    assert_eq!(result, str_val(""));

    let node = builtin(OpCode::And, vec![var_node("a"), var_node("b")]);
    let (_, changed) = eliminate(node, JS);
    assert!(!changed);

    // Strict truthiness: 0 is truthy, so `or` absorbs at it.
    let node = builtin(OpCode::Or, vec![var_node("a"), val(DataValue::Number(0)), var_node("b")]);
    let (result, _) = eliminate(node, TruthyEvaluator::StrictBoolean);
    assert_eq!(result, val(DataValue::Number(0)));
}

#[test]
fn cat_of_only_literals_becomes_one_literal() {
    let node = builtin(OpCode::Cat, vec![str_val("a"), str_val("b"), str_val("c")]);
    let (result, changed) = fold(node, &DataLogic::new());
    assert!(changed);
    assert_eq!(result, str_val("abc"));

    let node = builtin(OpCode::Cat, vec![str_val("a"), var_node("x"), str_val("b")]);
    let (_, changed) = fold(node, &DataLogic::new());
    assert!(!changed);
}

#[test]
fn precoerce_leaves_non_integers() {
    let node = builtin(OpCode::Multiply, vec![str_val("-12"), str_val("x1"), val(DataValue::Null)]);
    let (result, changed) = fold(node, &DataLogic::new());
    assert!(changed);
    assert_eq!(
        result,
        builtin(OpCode::Multiply, vec![val(DataValue::Number(-12)), str_val("x1"), val(DataValue::Null)])
    );
    let node = builtin(OpCode::Equals, vec![str_val("5"), var_node("x")]);
    let (_, changed) = fold(node, &DataLogic::new());
    assert!(!changed);
}

#[test]
fn optimize_runs_passes_to_a_fixpoint() {
    // !(!(if [true, x, y])) -> !!x
    let node = builtin(
        OpCode::Not,
        vec![builtin(OpCode::Not, vec![builtin(OpCode::If, vec![val(DataValue::Bool(true)), var_node("x"), var_node("y")])])],
    );
    let result = optimize(node, &DataLogic::new());
    assert_eq!(
        result,
        builtin(OpCode::DoubleNot, vec![builtin(OpCode::If, vec![val(DataValue::Bool(true)), var_node("x"), var_node("y")])])
    );
    // The top-level ternary collapses, and then its result is looked at again.
    let node = builtin(
        OpCode::Ternary,
        vec![val(DataValue::Bool(false)), var_node("x"), builtin(OpCode::Cat, vec![str_val("a"), str_val("b")])],
    );
    assert_eq!(optimize(node, &DataLogic::new()), str_val("ab"));
}

#[test]
fn static_classification() {
    assert!(node_is_static(&val(DataValue::Null)));
    assert!(node_is_static(&builtin(OpCode::Add, vec![val(DataValue::Number(1)), val(DataValue::Number(2))])));
    assert!(!node_is_static(&builtin(OpCode::Add, vec![val(DataValue::Number(1)), var_node("x")])));
    assert!(!node_is_static(&builtin(OpCode::Now, vec![])));
    assert!(!node_is_static(&builtin(OpCode::Max, vec![val(DataValue::Number(1))])));
    assert!(node_is_static(&CompiledNode::Array { nodes: vec![val(DataValue::Number(1))] }));
    assert!(node_is_static(&CompiledNode::StructuredObject { fields: vec![("a".to_string(), val(DataValue::Null))] }));
    assert!(!node_is_static(&CompiledNode::CustomOperator { name: "f".to_string(), args: vec![] }));
}

#[test]
fn test_partial_fold_add() {
    let engine = DataLogic::new();
    let node = builtin(
        OpCode::Add,
        vec![val(DataValue::Number(1)), val(DataValue::Number(2)), var_node("x"), val(DataValue::Number(3))],
    );
    let (result, changed) = fold(node, &engine);
    assert!(changed);
    if let CompiledNode::BuiltinOperator { args, .. } = &result {
        assert_eq!(args.len(), 2);
        if let CompiledNode::Value { value } = &args[0] {
            assert_eq!(*value, DataValue::Number(6));
        } else {
            panic!("expected folded value");
        }
    } else {
        panic!("expected BuiltinOperator");
    }
    assert_eq!(result, builtin(OpCode::Add, vec![val(DataValue::Number(6)), var_node("x")]));
}

#[test]
fn partial_fold_multiply_and_its_limits() {
    let engine = DataLogic::new();
    let node = builtin(
        OpCode::Multiply,
        vec![val(DataValue::Number(2)), var_node("x"), val(DataValue::Number(5))],
    );
    assert_eq!(
        fold(node, &engine),
        (builtin(OpCode::Multiply, vec![val(DataValue::Number(10)), var_node("x")]), true)
    );
    // A single literal has nothing to fold with.
    let node = builtin(OpCode::Add, vec![val(DataValue::Number(2)), var_node("x")]);
    let (_, changed) = fold(node, &engine);
    assert!(!changed);
    // A literal part that overflows is left as it is.
    let node = builtin(
        OpCode::Add,
        vec![val(DataValue::Number(i64::MAX)), val(DataValue::Number(1)), var_node("x")],
    );
    let (_, changed) = fold(node, &engine);
    assert!(!changed);
}

#[test]
fn if_elimination_leaves_non_literal_conditions_alone() {
    let node = builtin(OpCode::If, vec![var_node("a"), val(DataValue::Number(1)), var_node("b"), val(DataValue::Number(2)), val(DataValue::Number(3))]);
    let (_, changed) = eliminate(node, JS);
    assert!(!changed);
    let node = builtin(OpCode::If, vec![var_node("a"), val(DataValue::Number(1)), val(DataValue::Bool(true)), val(DataValue::Number(2))]);
    let (result, changed) = eliminate(node, JS);
    assert!(changed);
    assert_eq!(result, builtin(OpCode::If, vec![var_node("a"), val(DataValue::Number(1)), val(DataValue::Number(2))]));
    let (_, changed) = eliminate(builtin(OpCode::If, vec![var_node("a")]), JS);
    assert!(changed);
}
