//! Compilation of a rule, given as a JSON value, into a tree of compiled
//! nodes: single-key objects are operator invocations, arrays compile
//! element by element, other values are literals; with an engine, built-in
//! operator nodes go through the optimiser, and those that need no data
//! are replaced by their value.

use vstd::prelude::*;
use crate::config::EvaluationConfig;
use crate::context::{DataContextStack, FrameView, frames_view};
use crate::engine::DataLogic;
use crate::eval::{NoOperator, eval_node, eval_spec, no_ops, ops_view};
use crate::error::{Error, ErrorKind};
use crate::node::{CompiledNode, NodeView, lemma_nodes_view, lemma_fields_view, node_view, nodes_view, fields_view};
use crate::opcode::{OpCode, opcode_of_name};
use crate::operator::{
    parse_var_path_spec,
    compile_missing, compile_missing_some, compile_missing_some_spec, compile_missing_spec,
    invalid_args_marker, invalid_marker_spec, throw_literal_spec, try_compile_exists,
    try_compile_throw_literal, try_compile_val, try_compile_var, try_exists_spec, try_val_spec,
    try_var_spec,
};
use crate::optimize::{node_is_static, node_static_spec, optimize, optimize_spec};
use crate::value::{DataValue, JsonValue, lemma_pairs_view, lemma_values_view, pairs_view, values_view};

verus! {

broadcast use {
    vstd::string::group_string_axioms,
    lemma_values_view,
    lemma_pairs_view,
    lemma_nodes_view,
    lemma_fields_view,
};

/// `name` is a registered custom operator of the engine, if there is one.
pub open spec fn has_custom_spec(engine: Option<&DataLogic>, name: Seq<char>) -> bool {
    match engine {
        Some(e) => e.custom_names().contains(name),
        None => false,
    }
}

/// The arguments of `preserve`: raw literals, not compiled logic.
pub open spec fn preserve_args_spec(args_v: JsonValue) -> Seq<NodeView> {
    match args_v {
        JsonValue::Array(items) => items.map_values(|x: JsonValue| NodeView::Value(x)),
        _ => seq![NodeView::Value(args_v)],
    }
}

/// The variable-access specialisations: `var`, `val` and `exists` over
/// literal arguments.
pub open spec fn specialise_spec(op: OpCode, args: Seq<NodeView>) -> Option<NodeView> {
    if op == OpCode::Var {
        try_var_spec(args)
    } else if op == OpCode::Val {
        try_val_spec(args)
    } else if op == OpCode::Exists {
        try_exists_spec(args)
    } else {
        None
    }
}

/// A node that needs no data is replaced by its value, evaluated over
/// `null` data with no frames; it stays when that evaluation fails.
pub open spec fn static_fold_spec(n: NodeView, cfg: EvaluationConfig) -> NodeView {
    if node_static_spec(n) {
        match eval_spec(n, Seq::<FrameView>::empty(), JsonValue::Null, cfg, no_ops()) {
            Ok(v) => NodeView::Value(v),
            Err(_) => n,
        }
    } else {
        n
    }
}

/// The node a built-in operator over compiled arguments becomes: a
/// specialisation where one applies, else the operator node, optimised
/// and, when it needs no data, replaced by its value when an engine is
/// given.
pub open spec fn finish_builtin_spec(op: OpCode, args: Seq<NodeView>, engine: Option<&DataLogic>) -> NodeView {
    match specialise_spec(op, args) {
        Some(n) => n,
        None => if op == OpCode::Missing {
            compile_missing_spec(args)
        } else if op == OpCode::MissingSome {
            compile_missing_some_spec(args)
        } else {
            match throw_literal_spec(op, args) {
                Some(n) => n,
                None => match engine {
                    Some(e) => static_fold_spec(
                        optimize_spec(NodeView::Builtin(op, args), e.config_spec()),
                        e.config_spec(),
                    ),
                    None => NodeView::Builtin(op, args),
                },
            }
        },
    }
}

/// What a rule compiles to; `None` for the one compile error, a
/// multi-key object outside preserve-structure mode.
pub open spec fn compile_spec(v: JsonValue, engine: Option<&DataLogic>, preserve: bool) -> Option<NodeView>
    decreases v, 0nat,
{
    match v {
        JsonValue::Object(pairs) => if pairs.len() > 1 {
            if preserve {
                match compile_fields_spec(pairs, engine, preserve) {
                    Some(f) => Some(NodeView::Structured(f)),
                    None => None,
                }
            } else {
                None
            }
        } else if pairs.len() == 1 {
            invocation_spec(pairs[0].0, pairs[0].1, engine, preserve)
        } else {
            Some(NodeView::Value(v))
        },
        JsonValue::Array(items) => match compile_seq_spec(items, engine, preserve) {
            Some(ns) => Some(array_node_spec(ns, engine)),
            None => None,
        },
        _ => Some(NodeView::Value(v)),
    }
}

/// Every node is a literal.
pub open spec fn all_literals(ns: Seq<NodeView>) -> bool {
    forall|i: int| 0 <= i < ns.len() ==> #[trigger] ns[i] is Value
}

/// The node a compiled array becomes: with an engine, an array of literals
/// is itself a literal; otherwise it stays an array node.
pub open spec fn array_node_spec(ns: Seq<NodeView>, engine: Option<&DataLogic>) -> NodeView {
    if engine is Some && all_literals(ns) {
        NodeView::Value(JsonValue::Array(ns.map_values(|n: NodeView| n->Value_0)))
    } else {
        NodeView::Array(ns)
    }
}

/// Compiles each element in order; `None` if any fails.
pub open spec fn compile_seq_spec(items: Seq<JsonValue>, engine: Option<&DataLogic>, preserve: bool) -> Option<Seq<NodeView>>
    decreases items, 0nat,
{
    if items.len() == 0 {
        Some(Seq::empty())
    } else {
        match compile_seq_spec(items.subrange(0, items.len() - 1), engine, preserve) {
            Some(prev) => match compile_spec(items[items.len() - 1], engine, preserve) {
                Some(n) => Some(prev.push(n)),
                None => None,
            },
            None => None,
        }
    }
}

/// Compiles each field value of an output template in order.
pub open spec fn compile_fields_spec(pairs: Seq<(Seq<char>, JsonValue)>, engine: Option<&DataLogic>, preserve: bool) -> Option<Seq<(Seq<char>, NodeView)>>
    decreases pairs, 0nat,
{
    if pairs.len() == 0 {
        Some(Seq::empty())
    } else {
        match compile_fields_spec(pairs.subrange(0, pairs.len() - 1), engine, preserve) {
            Some(prev) => match compile_spec(pairs[pairs.len() - 1].1, engine, preserve) {
                Some(n) => Some(prev.push((pairs[pairs.len() - 1].0, n))),
                None => None,
            },
            None => None,
        }
    }
}

/// What an operator invocation `{name: args_v}` compiles to.
pub open spec fn invocation_spec(name: Seq<char>, args_v: JsonValue, engine: Option<&DataLogic>, preserve: bool) -> Option<NodeView>
    decreases args_v, 4nat,
{
    match opcode_of_name(name) {
        Some(op) => builtin_spec(op, args_v, engine, preserve),
        None => if preserve {
            preserve_unknown_spec(name, args_v, engine, preserve)
        } else {
            match compile_args_spec(args_v, engine, preserve) {
                Some(a) => Some(NodeView::Custom(name, a)),
                None => None,
            }
        },
    }
}

/// What a built-in operator over `args_v` compiles to.
pub open spec fn builtin_spec(op: OpCode, args_v: JsonValue, engine: Option<&DataLogic>, preserve: bool) -> Option<NodeView>
    decreases args_v, 3nat,
{
    if (op == OpCode::And || op == OpCode::Or || op == OpCode::If) && !(args_v is Array) {
        Some(invalid_marker_spec(op, args_v))
    } else if op == OpCode::Preserve {
        Some(finish_builtin_spec(op, preserve_args_spec(args_v), engine))
    } else {
        match compile_args_spec(args_v, engine, preserve) {
            Some(args) => Some(finish_builtin_spec(op, args, engine)),
            None => None,
        }
    }
}

/// An unknown key in preserve-structure mode: a registered custom
/// operator, or else a one-field output template.
pub open spec fn preserve_unknown_spec(name: Seq<char>, args_v: JsonValue, engine: Option<&DataLogic>, preserve: bool) -> Option<NodeView>
    decreases args_v, 3nat,
{
    if has_custom_spec(engine, name) {
        match compile_args_spec(args_v, engine, preserve) {
            Some(a) => Some(NodeView::Custom(name, a)),
            None => None,
        }
    } else {
        match compile_spec(args_v, engine, preserve) {
            Some(n) => Some(NodeView::Structured(seq![(name, n)])),
            None => None,
        }
    }
}

/// Operator arguments: an array is compiled element by element, anything
/// else is a single argument.
pub open spec fn compile_args_spec(args_v: JsonValue, engine: Option<&DataLogic>, preserve: bool) -> Option<Seq<NodeView>>
    decreases args_v, 1nat,
{
    match args_v {
        JsonValue::Array(items) => compile_seq_spec(items, engine, preserve),
        _ => match compile_spec(args_v, engine, preserve) {
            Some(n) => Some(seq![n]),
            None => None,
        },
    }
}

/// The error compilation reports for a multi-key object outside
/// preserve-structure mode.
pub open spec fn is_unknown_operator_error(e: Error) -> bool {
    &&& e.kind matches ErrorKind::InvalidOperator(m)
    &&& e.kind->InvalidOperator_0@ == "Unknown Operator"@
    &&& e.operator is None
    &&& e.path@.len() == 0
}

/// A failure in a prefix fails the whole sequence.
proof fn lemma_compile_seq_prefix(items: Seq<JsonValue>, k: int, engine: Option<&DataLogic>, preserve: bool)
    requires
        0 <= k <= items.len(),
        compile_seq_spec(items.take(k), engine, preserve) is None,
    ensures
        compile_seq_spec(items, engine, preserve) is None,
    decreases items.len(),
{
    if k < items.len() {
        assert(items.subrange(0, items.len() - 1).take(k) =~= items.take(k));
        lemma_compile_seq_prefix(items.subrange(0, items.len() - 1), k, engine, preserve);
    } else {
        assert(items.take(k) =~= items);
    }
}

/// A failure in a prefix fails the whole template.
proof fn lemma_compile_fields_prefix(pairs: Seq<(Seq<char>, JsonValue)>, k: int, engine: Option<&DataLogic>, preserve: bool)
    requires
        0 <= k <= pairs.len(),
        compile_fields_spec(pairs.take(k), engine, preserve) is None,
    ensures
        compile_fields_spec(pairs, engine, preserve) is None,
    decreases pairs.len(),
{
    if k < pairs.len() {
        assert(pairs.subrange(0, pairs.len() - 1).take(k) =~= pairs.take(k));
        lemma_compile_fields_prefix(pairs.subrange(0, pairs.len() - 1), k, engine, preserve);
    } else {
        assert(pairs.take(k) =~= pairs);
    }
}

/// The compile error.
fn unknown_operator() -> (e: Error)
    ensures
        is_unknown_operator_error(e),
{
    Error::invalid_operator(String::from_str("Unknown Operator"))
}

/// Compiles a rule value into a node.
pub fn compile_node(value: &DataValue, engine: Option<&DataLogic>, preserve: bool) -> (r: Result<CompiledNode, Error>)
    ensures
        match r {
            Ok(n) => compile_spec(value@, engine, preserve) == Some(n@),
            Err(e) => compile_spec(value@, engine, preserve) is None && is_unknown_operator_error(e),
        },
    decreases value, 0nat,
{
    match value {
        DataValue::Object(pairs) => {
            assert(value@ == JsonValue::Object(pairs_view(pairs@)));
            if pairs.len() > 1 {
                return compile_multi_key_object(pairs, engine, preserve);
            }
            if pairs.len() == 1 {
                let entry = &pairs[0];
                proof {
                    lemma_pairs_view(pairs@);
                    assert(decreases_to!(pairs => pairs@));
                    assert(decreases_to!(pairs@ => pairs@[0]));
                    assert(decreases_to!(pairs@[0] => pairs@[0].1));
                }
                return compile_operator_invocation(entry.0.as_str(), &entry.1, engine, preserve);
            }
            Ok(CompiledNode::Value { value: value.copy() })
        },
        DataValue::Array(items) => {
            assert(value@ == JsonValue::Array(values_view(items@)));
            compile_array(items, engine, preserve)
        },
        _ => Ok(CompiledNode::Value { value: value.copy() }),
    }
}

/// Compiles the elements of an array, in order.
fn compile_values(items: &Vec<DataValue>, engine: Option<&DataLogic>, preserve: bool) -> (r: Result<Vec<CompiledNode>, Error>)
    ensures
        match r {
            Ok(v) => compile_seq_spec(values_view(items@), engine, preserve) == Some(nodes_view(v@)),
            Err(e) => compile_seq_spec(values_view(items@), engine, preserve) is None && is_unknown_operator_error(e),
        },
    decreases items, 0nat,
{
    let ghost vv = values_view(items@);
    let mut out: Vec<CompiledNode> = Vec::new();
    let mut i: usize = 0;
    while i < items.len()
        invariant
            i <= items@.len(),
            vv == values_view(items@),
            compile_seq_spec(vv.take(i as int), engine, preserve) == Some(nodes_view(out@)),
        decreases items@.len() - i,
    {
        proof {
            lemma_values_view(items@);
            assert(decreases_to!(items => items@));
            assert(decreases_to!(items@ => items@[i as int]));
        }
        let ghost t = vv.take(i as int + 1);
        assert(t.subrange(0, t.len() - 1) =~= vv.take(i as int));
        assert(t[t.len() - 1] == items@[i as int]@);
        match compile_node(&items[i], engine, preserve) {
            Ok(n) => {
                let ghost before = nodes_view(out@);
                out.push(n);
                assert(nodes_view(out@) =~= before.push(n@));
            },
            Err(e) => {
                proof {
                    lemma_compile_seq_prefix(vv, i as int + 1, engine, preserve);
                }
                return Err(e);
            },
        }
        i = i + 1;
    }
    assert(vv.take(items@.len() as int) =~= vv);
    Ok(out)
}

/// Compiles a literal array.
fn compile_array(items: &Vec<DataValue>, engine: Option<&DataLogic>, preserve: bool) -> (r: Result<CompiledNode, Error>)
    ensures
        match r {
            Ok(n) => compile_spec(JsonValue::Array(values_view(items@)), engine, preserve) == Some(n@),
            Err(e) => compile_spec(JsonValue::Array(values_view(items@)), engine, preserve) is None
                && is_unknown_operator_error(e),
        },
    decreases items, 1nat,
{
    match compile_values(items, engine, preserve) {
        Ok(nodes) => {
            if engine.is_some() {
                match literal_values(&nodes) {
                    Some(values) => {
                        return Ok(CompiledNode::Value { value: DataValue::Array(values) });
                    },
                    None => {},
                }
            }
            Ok(CompiledNode::Array { nodes })
        },
        Err(e) => Err(e),
    }
}

/// The literals of `nodes`, when every node is a literal.
fn literal_values(nodes: &Vec<CompiledNode>) -> (r: Option<Vec<DataValue>>)
    ensures
        match r {
            Some(vals) => all_literals(nodes_view(nodes@)) && values_view(vals@) == nodes_view(nodes@).map_values(
                |n: NodeView| n->Value_0,
            ),
            None => !all_literals(nodes_view(nodes@)),
        },
{
    let ghost nv = nodes_view(nodes@);
    let mut out: Vec<DataValue> = Vec::new();
    let mut i: usize = 0;
    while i < nodes.len()
        invariant
            i <= nodes@.len(),
            nv == nodes_view(nodes@),
            out@.len() == i,
            forall|j: int| 0 <= j < i ==> (#[trigger] nv[j] is Value) && nv[j]->Value_0 == out@[j]@,
        decreases nodes@.len() - i,
    {
        proof {
            lemma_nodes_view(nodes@);
        }
        assert(nv[i as int] == node_view(nodes@[i as int]));
        match &nodes[i] {
            CompiledNode::Value { value } => {
                out.push(value.copy());
            },
            _ => {
                return None;
            },
        }
        i = i + 1;
    }
    proof {
        lemma_values_view(out@);
        assert(values_view(out@) =~= nv.map_values(|n: NodeView| n->Value_0));
    }
    Some(out)
}

/// Compiles the field values of an output template, in order.
fn compile_fields(pairs: &Vec<(String, DataValue)>, engine: Option<&DataLogic>, preserve: bool) -> (r: Result<Vec<(String, CompiledNode)>, Error>)
    ensures
        match r {
            Ok(v) => compile_fields_spec(pairs_view(pairs@), engine, preserve) == Some(fields_view(v@)),
            Err(e) => compile_fields_spec(pairs_view(pairs@), engine, preserve) is None && is_unknown_operator_error(e),
        },
    decreases pairs, 0nat,
{
    let ghost pv = pairs_view(pairs@);
    let mut out: Vec<(String, CompiledNode)> = Vec::new();
    let mut i: usize = 0;
    while i < pairs.len()
        invariant
            i <= pairs@.len(),
            pv == pairs_view(pairs@),
            compile_fields_spec(pv.take(i as int), engine, preserve) == Some(fields_view(out@)),
        decreases pairs@.len() - i,
    {
        proof {
            lemma_pairs_view(pairs@);
            assert(decreases_to!(pairs => pairs@));
            assert(decreases_to!(pairs@ => pairs@[i as int]));
            assert(decreases_to!(pairs@[i as int] => pairs@[i as int].1));
        }
        let ghost t = pv.take(i as int + 1);
        assert(t.subrange(0, t.len() - 1) =~= pv.take(i as int));
        assert(t[t.len() - 1] == (pairs@[i as int].0@, pairs@[i as int].1@));
        let entry = &pairs[i];
        match compile_node(&entry.1, engine, preserve) {
            Ok(n) => {
                let ghost before = fields_view(out@);
                out.push((entry.0.clone(), n));
                assert(fields_view(out@) =~= before.push((entry.0@, n@)));
            },
            Err(e) => {
                proof {
                    lemma_compile_fields_prefix(pv, i as int + 1, engine, preserve);
                }
                return Err(e);
            },
        }
        i = i + 1;
    }
    assert(pv.take(pairs@.len() as int) =~= pv);
    Ok(out)
}

/// A multi-key object: an output template in preserve-structure mode, an
/// error otherwise.
fn compile_multi_key_object(pairs: &Vec<(String, DataValue)>, engine: Option<&DataLogic>, preserve: bool) -> (r: Result<CompiledNode, Error>)
    requires
        pairs@.len() > 1,
    ensures
        match r {
            Ok(n) => compile_spec(JsonValue::Object(pairs_view(pairs@)), engine, preserve) == Some(n@),
            Err(e) => compile_spec(JsonValue::Object(pairs_view(pairs@)), engine, preserve) is None
                && is_unknown_operator_error(e),
        },
    decreases pairs, 1nat,
{
    proof {
        lemma_pairs_view(pairs@);
    }
    if preserve {
        match compile_fields(pairs, engine, preserve) {
            Ok(fields) => Ok(CompiledNode::StructuredObject { fields }),
            Err(e) => Err(e),
        }
    } else {
        Err(unknown_operator())
    }
}

/// Compiles operator arguments: an array element by element, anything
/// else as one argument.
pub fn compile_args(value: &DataValue, engine: Option<&DataLogic>, preserve: bool) -> (r: Result<Vec<CompiledNode>, Error>)
    ensures
        match r {
            Ok(v) => compile_args_spec(value@, engine, preserve) == Some(nodes_view(v@)),
            Err(e) => compile_args_spec(value@, engine, preserve) is None && is_unknown_operator_error(e),
        },
    decreases value, 1nat,
{
    match value {
        DataValue::Array(items) => {
            assert(value@ == JsonValue::Array(values_view(items@)));
            compile_values(items, engine, preserve)
        },
        _ => match compile_node(value, engine, preserve) {
            Ok(n) => {
                let v = vec![n];
                assert(nodes_view(v@) =~= seq![n@]);
                Ok(v)
            },
            Err(e) => Err(e),
        },
    }
}

/// The literal arguments of `preserve`.
fn preserve_args(args_value: &DataValue) -> (r: Vec<CompiledNode>)
    ensures
        nodes_view(r@) == preserve_args_spec(args_value@),
{
    match args_value {
        DataValue::Array(items) => {
            let ghost vv = values_view(items@);
            let mut out: Vec<CompiledNode> = Vec::new();
            let mut i: usize = 0;
            while i < items.len()
                invariant
                    i <= items@.len(),
                    vv == values_view(items@),
                    out@.len() == i,
                    forall|j: int| 0 <= j < i ==> #[trigger] node_view(out@[j]) == NodeView::Value(vv[j]),
                decreases items@.len() - i,
            {
                proof {
                    lemma_values_view(items@);
                }
                out.push(CompiledNode::Value { value: items[i].copy() });
                i = i + 1;
            }
            proof {
                lemma_nodes_view(out@);
                assert(nodes_view(out@) =~= vv.map_values(|x: JsonValue| NodeView::Value(x)));
            }
            out
        },
        _ => {
            let v = vec![CompiledNode::Value { value: args_value.copy() }];
            assert(nodes_view(v@) =~= seq![NodeView::Value(args_value@)]);
            v
        },
    }
}

/// Arguments of a built-in operator: raw literals for `preserve`,
/// compiled logic otherwise.
fn compile_builtin_args(opcode: OpCode, args_value: &DataValue, engine: Option<&DataLogic>, preserve: bool) -> (r: Result<Vec<CompiledNode>, Error>)
    ensures
        match r {
            Ok(v) => if opcode == OpCode::Preserve {
                nodes_view(v@) == preserve_args_spec(args_value@)
            } else {
                compile_args_spec(args_value@, engine, preserve) == Some(nodes_view(v@))
            },
            Err(e) => opcode != OpCode::Preserve && compile_args_spec(args_value@, engine, preserve) is None
                && is_unknown_operator_error(e),
        },
    decreases args_value, 2nat,
{
    if opcode == OpCode::Preserve {
        Ok(preserve_args(args_value))
    } else {
        compile_args(args_value, engine, preserve)
    }
}

/// Tries the variable-access specialisations for `var`, `val` and
/// `exists`.
fn try_specialised(opcode: OpCode, args: &Vec<CompiledNode>) -> (r: Option<CompiledNode>)
    ensures
        crate::node::opt_node_view(r) == specialise_spec(opcode, nodes_view(args@)),
{
    if opcode == OpCode::Var {
        try_compile_var(args)
    } else if opcode == OpCode::Val {
        try_compile_val(args)
    } else if opcode == OpCode::Exists {
        try_compile_exists(args)
    } else {
        None
    }
}

/// The node a built-in operator over compiled arguments becomes.
fn finish_builtin(opcode: OpCode, args: Vec<CompiledNode>, engine: Option<&DataLogic>) -> (r: CompiledNode)
    ensures
        r@ == finish_builtin_spec(opcode, nodes_view(args@), engine),
{
    match try_specialised(opcode, &args) {
        Some(n) => {
            return n;
        },
        None => {},
    }
    if opcode == OpCode::Missing {
        return compile_missing(&args);
    }
    if opcode == OpCode::MissingSome {
        return compile_missing_some(&args);
    }
    match try_compile_throw_literal(opcode, &args) {
        Some(n) => {
            return n;
        },
        None => {},
    }
    let node = CompiledNode::BuiltinOperator { opcode, args };
    match engine {
        Some(e) => {
            let optimized = optimize(node, e);
            fold_static(optimized, e)
        },
        None => node,
    }
}

/// Replaces a node that needs no data by its value, when it evaluates.
fn fold_static(node: CompiledNode, engine: &DataLogic) -> (r: CompiledNode)
    ensures
        r@ == static_fold_spec(node@, engine.config_spec()),
{
    if !node_is_static(&node) {
        return node;
    }
    let null = DataValue::Null;
    let ctx = DataContextStack::new(&null);
    assert(frames_view(ctx.frames()) =~= Seq::<FrameView>::empty());
    let none: Vec<(String, NoOperator)> = Vec::new();
    assert(ops_view(none@) =~= no_ops());
    match eval_node(&node, &ctx, engine.config(), &none) {
        Ok(v) => CompiledNode::Value { value: v },
        Err(_) => node,
    }
}

/// Compiles a built-in operator invocation.
fn compile_builtin(opcode: OpCode, args_value: &DataValue, engine: Option<&DataLogic>, preserve: bool) -> (r: Result<CompiledNode, Error>)
    ensures
        match r {
            Ok(n) => builtin_spec(opcode, args_value@, engine, preserve) == Some(n@),
            Err(e) => builtin_spec(opcode, args_value@, engine, preserve) is None && is_unknown_operator_error(e),
        },
    decreases args_value, 3nat,
{
    let requires_array = opcode == OpCode::And || opcode == OpCode::Or || opcode == OpCode::If;
    let is_array = match args_value {
        DataValue::Array(_) => true,
        _ => false,
    };
    if requires_array && !is_array {
        return Ok(invalid_args_marker(opcode, args_value));
    }
    match compile_builtin_args(opcode, args_value, engine, preserve) {
        Ok(args) => Ok(finish_builtin(opcode, args, engine)),
        Err(e) => Err(e),
    }
}

/// An unknown key in preserve-structure mode.
fn compile_preserve_unknown(op_name: &str, args_value: &DataValue, engine: Option<&DataLogic>, preserve: bool) -> (r: Result<CompiledNode, Error>)
    ensures
        match r {
            Ok(n) => preserve_unknown_spec(op_name@, args_value@, engine, preserve) == Some(n@),
            Err(e) => preserve_unknown_spec(op_name@, args_value@, engine, preserve) is None
                && is_unknown_operator_error(e),
        },
    decreases args_value, 3nat,
{
    let custom = match engine {
        Some(e) => e.has_custom_operator(op_name),
        None => false,
    };
    if custom {
        return match compile_args(args_value, engine, preserve) {
            Ok(args) => Ok(CompiledNode::CustomOperator { name: op_name.to_owned(), args }),
            Err(e) => Err(e),
        };
    }
    match compile_node(args_value, engine, preserve) {
        Ok(n) => {
            let fields = vec![(op_name.to_owned(), n)];
            assert(fields_view(fields@) =~= seq![(op_name@, n@)]);
            Ok(CompiledNode::StructuredObject { fields })
        },
        Err(e) => Err(e),
    }
}

/// Compiles an operator invocation `{op_name: args_value}`.
fn compile_operator_invocation(op_name: &str, args_value: &DataValue, engine: Option<&DataLogic>, preserve: bool) -> (r: Result<CompiledNode, Error>)
    ensures
        match r {
            Ok(n) => invocation_spec(op_name@, args_value@, engine, preserve) == Some(n@),
            Err(e) => invocation_spec(op_name@, args_value@, engine, preserve) is None
                && is_unknown_operator_error(e),
        },
    decreases args_value, 4nat,
{
    match OpCode::from_name(op_name) {
        Some(opcode) => compile_builtin(opcode, args_value, engine, preserve),
        None => {
            if preserve {
                return compile_preserve_unknown(op_name, args_value, engine, preserve);
            }
            match compile_args(args_value, engine, preserve) {
                Ok(args) => Ok(CompiledNode::CustomOperator { name: op_name.to_owned(), args }),
                Err(e) => Err(e),
            }
        },
    }
}

/// A compiled rule, ready to be evaluated any number of times.
pub struct CompiledLogic {
    /// The root node of the compiled tree.
    pub root: CompiledNode,
}

impl CompiledLogic {
    /// Wraps a compiled root node.
    pub fn new(root: CompiledNode) -> (r: Self)
        ensures
            r.root == root,
    {
        CompiledLogic { root }
    }

    /// Compiles a rule without an engine: no optimisation, unknown keys
    /// are custom operators, multi-key objects are an error.
    pub fn compile(logic: &DataValue) -> (r: Result<CompiledLogic, Error>)
        ensures
            match r {
                Ok(c) => compile_spec(logic@, None, false) == Some(c.root@),
                Err(e) => compile_spec(logic@, None, false) is None && is_unknown_operator_error(e),
            },
    {
        match compile_node(logic, None, false) {
            Ok(root) => Ok(CompiledLogic::new(root)),
            Err(e) => Err(e),
        }
    }

    /// Compiles a rule for step-by-step tracing: no optimisation, so every
    /// operator node stays in the tree.
    pub fn compile_for_trace(logic: &DataValue, preserve_structure: bool) -> (r: Result<CompiledLogic, Error>)
        ensures
            match r {
                Ok(c) => compile_spec(logic@, None, preserve_structure) == Some(c.root@),
                Err(e) => compile_spec(logic@, None, preserve_structure) is None && is_unknown_operator_error(e),
            },
    {
        match compile_node(logic, None, preserve_structure) {
            Ok(root) => Ok(CompiledLogic::new(root)),
            Err(e) => Err(e),
        }
    }

    /// Compiles a rule with an engine: operator nodes are optimised, and
    /// the engine's preserve-structure switch and custom operators apply.
    pub fn compile_with_static_eval(logic: &DataValue, engine: &DataLogic) -> (r: Result<CompiledLogic, Error>)
        ensures
            match r {
                Ok(c) => compile_spec(logic@, Some(engine), engine.preserves()) == Some(c.root@),
                Err(e) => compile_spec(logic@, Some(engine), engine.preserves()) is None
                    && is_unknown_operator_error(e),
            },
    {
        match compile_node(logic, Some(engine), engine.preserve_structure()) {
            Ok(root) => Ok(CompiledLogic::new(root)),
            Err(e) => Err(e),
        }
    }

    /// True iff the compiled rule needs no data to evaluate.
    pub fn is_static(&self) -> (r: bool)
        ensures
            r == node_static_spec(self.root@),
    {
        node_is_static(&self.root)
    }
}

/// A scalar rule (null, boolean, number, string) compiles to itself.
pub proof fn law_compile_scalar_literal(v: JsonValue, engine: Option<&DataLogic>, preserve: bool)
    requires
        !(v is Array),
        !(v is Object),
    ensures
        compile_spec(v, engine, preserve) == Some(NodeView::Value(v)),
{
}

/// `{"var": path}` with a literal path compiles to a variable access whose
/// path is parsed at compile time, whatever the engine.
pub proof fn law_compile_var_literal_path(path: Seq<char>, engine: Option<&DataLogic>, preserve: bool)
    ensures
        compile_spec(JsonValue::Object(seq![("var"@, JsonValue::Str(path))]), engine, preserve) == Some(
            NodeView::Var {
                scope_level: 0,
                segments: parse_var_path_spec(path).1,
                reduce_hint: parse_var_path_spec(path).0,
                metadata_hint: crate::node::MetadataHint::NoHint,
                default_value: None,
            },
        ),
{
    let arg = JsonValue::Str(path);
    assert(compile_spec(arg, engine, preserve) == Some(NodeView::Value(arg)));
    assert(compile_args_spec(arg, engine, preserve) == Some(seq![NodeView::Value(arg)]));
    assert(opcode_of_name("var"@) == Some(OpCode::Var));
    assert(builtin_spec(OpCode::Var, arg, engine, preserve) == Some(
        finish_builtin_spec(OpCode::Var, seq![NodeView::Value(arg)], engine),
    ));
}

} // verus!
