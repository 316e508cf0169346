//! Rewrites of compiled operator nodes: dead-branch elimination for `if`,
//! `?:`, `and` and `or` over literal conditions; pre-coercion of numeric
//! string literals in arithmetic; merging of adjacent literal strings in
//! `cat`; collapsing of double negation; the fixpoint loop that runs them;
//! and the classification of nodes that need no data to evaluate.

use vstd::prelude::*;
use crate::config::{EvaluationConfig, TruthyEvaluator, default_config};
use crate::context::{DataContextStack, FrameView, frames_view};
use crate::engine::DataLogic;
use crate::eval::{EvalError, NoOperator, Operator, no_ops, ops_view, apply_spec, checked_sum, eval_if, eval_node, eval_seq, eval_spec, fits, operands_spec};
use crate::node::{CompiledNode, NodeView, lemma_nodes_view, node_view, nodes_view, opt_node_view, lemma_fields_view, fields_view};
use crate::opcode::OpCode;
use crate::strbuf::push_str;
use crate::text::{parse_i64, spec_parse_i64};
use crate::truthy::{is_truthy, truthy_spec};
use crate::value::{DataValue, JsonValue};

verus! {

broadcast use {vstd::string::group_string_axioms, lemma_nodes_view, lemma_fields_view};

/// The truthiness of a literal node; `None` for any other node.
pub open spec fn truthy_lit_spec(n: NodeView, t: TruthyEvaluator) -> Option<bool> {
    match n {
        NodeView::Value(v) => Some(truthy_spec(v, t)),
        _ => None,
    }
}

/// The truthiness of a literal node under `t`, or `None` when the node is
/// not a literal.
pub fn is_truthy_literal(node: &CompiledNode, t: TruthyEvaluator) -> (r: Option<bool>)
    ensures
        r == truthy_lit_spec(node@, t),
{
    match node {
        CompiledNode::Value { value } => Some(is_truthy(value, t)),
        _ => None,
    }
}

/// The end of the `if` scan: nothing left is `null`, a single branch is
/// itself, an untouched chain is left alone, anything else is a new `if`.
pub open spec fn finish_if_spec(n: nat, kept: Seq<NodeView>, skipped: bool) -> Option<NodeView> {
    if kept.len() == 0 {
        Some(NodeView::Value(JsonValue::Null))
    } else if kept.len() == 1 {
        Some(kept[0])
    } else if !skipped && kept.len() == n {
        None
    } else {
        Some(NodeView::Builtin(OpCode::If, kept))
    }
}

/// The `if` scan from position `i`: a literally false condition drops its
/// pair, a literally true one ends the chain with its branch, others are
/// kept; the last odd argument is the `else`.
pub open spec fn elim_if_loop(args: Seq<NodeView>, i: int, kept: Seq<NodeView>, skipped: bool, t: TruthyEvaluator) -> Option<NodeView>
    decreases args.len() - i,
{
    if i < 0 || i >= args.len() {
        finish_if_spec(args.len(), kept, skipped)
    } else if i == args.len() - 1 {
        if kept.len() == 0 {
            Some(args[i])
        } else {
            finish_if_spec(args.len(), kept.push(args[i]), skipped)
        }
    } else {
        match truthy_lit_spec(args[i], t) {
            Some(true) => if kept.len() == 0 {
                Some(args[i + 1])
            } else {
                finish_if_spec(args.len(), kept.push(args[i + 1]), true)
            },
            Some(false) => elim_if_loop(args, i + 2, kept, true, t),
            None => elim_if_loop(args, i + 2, kept.push(args[i]).push(args[i + 1]), skipped, t),
        }
    }
}

/// What dead-branch elimination makes of `if` over `args`; `None` when
/// nothing changes.
pub open spec fn eliminate_if_spec(args: Seq<NodeView>, t: TruthyEvaluator) -> Option<NodeView> {
    if args.len() == 0 {
        Some(NodeView::Value(JsonValue::Null))
    } else {
        elim_if_loop(args, 0, Seq::empty(), false, t)
    }
}

/// What dead-branch elimination makes of `?:` over `args`.
pub open spec fn eliminate_ternary_spec(args: Seq<NodeView>, t: TruthyEvaluator) -> Option<NodeView> {
    if args.len() < 3 {
        None
    } else {
        match truthy_lit_spec(args[0], t) {
            Some(true) => Some(args[1]),
            Some(false) => Some(args[2]),
            None => None,
        }
    }
}

/// The end of an `and` / `or` scan over `args` that kept `kept`.
pub open spec fn finish_andor_spec(op: OpCode, args: Seq<NodeView>, kept: Seq<NodeView>) -> Option<NodeView> {
    if kept.len() == 0 {
        Some(args.last())
    } else if kept.len() == 1 {
        Some(kept[0])
    } else if kept.len() == args.len() {
        None
    } else {
        Some(NodeView::Builtin(op, kept))
    }
}

/// The `and` / `or` scan from position `i`: the first literal whose
/// truthiness is `absorb` is the result; other literals are dropped;
/// non-literals are kept.
pub open spec fn scan_andor(op: OpCode, args: Seq<NodeView>, t: TruthyEvaluator, absorb: bool, i: int, kept: Seq<NodeView>) -> Option<NodeView>
    decreases args.len() - i,
{
    if i < 0 || i >= args.len() {
        finish_andor_spec(op, args, kept)
    } else {
        match truthy_lit_spec(args[i], t) {
            Some(b) => if b == absorb {
                Some(args[i])
            } else {
                scan_andor(op, args, t, absorb, i + 1, kept)
            },
            None => scan_andor(op, args, t, absorb, i + 1, kept.push(args[i])),
        }
    }
}

/// What dead-branch elimination makes of `and` (`absorb` false) or `or`
/// (`absorb` true) over `args`.
pub open spec fn eliminate_andor_spec(op: OpCode, args: Seq<NodeView>, t: TruthyEvaluator, absorb: bool) -> Option<NodeView> {
    if args.len() == 0 {
        None
    } else {
        scan_andor(op, args, t, absorb, 0, Seq::empty())
    }
}

/// One dead-code pass over the top node, with whether it changed.
pub open spec fn eliminate_spec(n: NodeView, t: TruthyEvaluator) -> (NodeView, bool) {
    match n {
        NodeView::Builtin(op, args) => {
            let rewritten = if op == OpCode::If {
                eliminate_if_spec(args, t)
            } else if op == OpCode::Ternary {
                eliminate_ternary_spec(args, t)
            } else if op == OpCode::And {
                eliminate_andor_spec(OpCode::And, args, t, false)
            } else if op == OpCode::Or {
                eliminate_andor_spec(OpCode::Or, args, t, true)
            } else {
                None
            };
            match rewritten {
                Some(m) => (m, true),
                None => (n, false),
            }
        },
        _ => (n, false),
    }
}

/// The node a `Vec` of kept nodes becomes at the end of the `if` scan.
fn finish_if(n: usize, kept: Vec<CompiledNode>, skipped: bool) -> (r: Option<CompiledNode>)
    ensures
        opt_node_view(r) == finish_if_spec(n as nat, nodes_view(kept@), skipped),
{
    if kept.len() == 0 {
        return Some(CompiledNode::Value { value: DataValue::Null });
    }
    if kept.len() == 1 {
        return Some(kept[0].copy());
    }
    if !skipped && kept.len() == n {
        return None;
    }
    Some(CompiledNode::BuiltinOperator { opcode: OpCode::If, args: kept })
}

/// Dead-branch elimination for `if`.
fn eliminate_if(args: &Vec<CompiledNode>, t: TruthyEvaluator) -> (r: Option<CompiledNode>)
    ensures
        opt_node_view(r) == eliminate_if_spec(nodes_view(args@), t),
{
    let ghost nv = nodes_view(args@);
    if args.len() == 0 {
        return Some(CompiledNode::Value { value: DataValue::Null });
    }
    let mut i: usize = 0;
    let mut kept: Vec<CompiledNode> = Vec::new();
    let mut skipped_any = false;
    while i < args.len()
        invariant
            i <= args@.len(),
            nv == nodes_view(args@),
            elim_if_loop(nv, 0, Seq::empty(), false, t) == elim_if_loop(nv, i as int, nodes_view(kept@), skipped_any, t),
        decreases args@.len() - i,
    {
        assert(nv[i as int] == node_view(args@[i as int]));
        if i == args.len() - 1 {
            if kept.len() == 0 {
                return Some(args[i].copy());
            }
            let ghost before = nodes_view(kept@);
            kept.push(args[i].copy());
            assert(nodes_view(kept@) =~= before.push(nv[i as int]));
            return finish_if(args.len(), kept, skipped_any);
        }
        assert(nv[i as int + 1] == node_view(args@[i as int + 1]));
        match is_truthy_literal(&args[i], t) {
            Some(true) => {
                if kept.len() == 0 {
                    return Some(args[i + 1].copy());
                }
                let ghost before = nodes_view(kept@);
                kept.push(args[i + 1].copy());
                assert(nodes_view(kept@) =~= before.push(nv[i as int + 1]));
                return finish_if(args.len(), kept, true);
            },
            Some(false) => {
                skipped_any = true;
            },
            None => {
                let ghost before = nodes_view(kept@);
                kept.push(args[i].copy());
                kept.push(args[i + 1].copy());
                assert(nodes_view(kept@) =~= before.push(nv[i as int]).push(nv[i as int + 1]));
            },
        }
        i = i + 2;
    }
    finish_if(args.len(), kept, skipped_any)
}

/// Dead-branch elimination for `?:`.
fn eliminate_ternary(args: &Vec<CompiledNode>, t: TruthyEvaluator) -> (r: Option<CompiledNode>)
    ensures
        opt_node_view(r) == eliminate_ternary_spec(nodes_view(args@), t),
{
    if args.len() < 3 {
        return None;
    }
    let ghost nv = nodes_view(args@);
    assert(nv[0] == node_view(args@[0]));
    assert(nv[1] == node_view(args@[1]));
    assert(nv[2] == node_view(args@[2]));
    match is_truthy_literal(&args[0], t) {
        Some(true) => Some(args[1].copy()),
        Some(false) => Some(args[2].copy()),
        None => None,
    }
}

/// Identity and absorbing elements of `and` (`absorb` false) and `or`
/// (`absorb` true).
fn eliminate_andor(op: OpCode, args: &Vec<CompiledNode>, t: TruthyEvaluator, absorb: bool) -> (r: Option<CompiledNode>)
    ensures
        opt_node_view(r) == eliminate_andor_spec(op, nodes_view(args@), t, absorb),
{
    if args.len() == 0 {
        return None;
    }
    let ghost nv = nodes_view(args@);
    let mut kept: Vec<CompiledNode> = Vec::new();
    let mut i: usize = 0;
    while i < args.len()
        invariant
            i <= args@.len(),
            args@.len() > 0,
            nv == nodes_view(args@),
            kept@.len() <= i,
            scan_andor(op, nv, t, absorb, 0, Seq::empty()) == scan_andor(op, nv, t, absorb, i as int, nodes_view(kept@)),
        decreases args@.len() - i,
    {
        assert(nv[i as int] == node_view(args@[i as int]));
        match is_truthy_literal(&args[i], t) {
            Some(b) => {
                if b == absorb {
                    return Some(args[i].copy());
                }
            },
            None => {
                let ghost before = nodes_view(kept@);
                kept.push(args[i].copy());
                assert(nodes_view(kept@) =~= before.push(nv[i as int]));
            },
        }
        i = i + 1;
    }
    let ghost kv = nodes_view(kept@);
    if kept.len() == 0 {
        let last = args.len() - 1;
        assert(nv[last as int] == node_view(args@[last as int]));
        return Some(args[last].copy());
    }
    if kept.len() == 1 {
        return Some(kept[0].copy());
    }
    if kept.len() == args.len() {
        return None;
    }
    Some(CompiledNode::BuiltinOperator { opcode: op, args: kept })
}

/// One dead-code pass over the top node; the flag says whether it changed.
pub fn eliminate(node: CompiledNode, t: TruthyEvaluator) -> (r: (CompiledNode, bool))
    ensures
        (r.0@, r.1) == eliminate_spec(node@, t),
{
    let rewritten = match &node {
        CompiledNode::BuiltinOperator { opcode, args } => {
            match opcode {
                OpCode::If => eliminate_if(args, t),
                OpCode::Ternary => eliminate_ternary(args, t),
                OpCode::And => eliminate_andor(OpCode::And, args, t, false),
                OpCode::Or => eliminate_andor(OpCode::Or, args, t, true),
                _ => None,
            }
        },
        _ => None,
    };
    match rewritten {
        Some(new_node) => (new_node, true),
        None => (node, false),
    }
}

/// The arithmetic operators, where numeric strings are pre-coerced.
pub open spec fn is_arithmetic_spec(op: OpCode) -> bool {
    op == OpCode::Add || op == OpCode::Subtract || op == OpCode::Multiply || op == OpCode::Divide
        || op == OpCode::Modulo
}

/// The arithmetic operators, where numeric strings are pre-coerced.
pub fn is_arithmetic(opcode: OpCode) -> (r: bool)
    ensures
        r == is_arithmetic_spec(opcode),
{
    match opcode {
        OpCode::Add | OpCode::Subtract | OpCode::Multiply | OpCode::Divide | OpCode::Modulo => true,
        _ => false,
    }
}

/// The operators whose literal arguments may be regrouped.
pub fn is_commutative(opcode: OpCode) -> (r: bool)
    ensures
        r == (opcode == OpCode::Add || opcode == OpCode::Multiply),
{
    match opcode {
        OpCode::Add | OpCode::Multiply => true,
        _ => false,
    }
}

/// A literal string argument that reads as an integer.
pub open spec fn coercible_spec(a: NodeView) -> bool {
    match a {
        NodeView::Value(JsonValue::Str(s)) => spec_parse_i64(s) is Some,
        _ => false,
    }
}

/// An argument with an integer-looking literal string replaced by the
/// integer.
pub open spec fn coerce_arg_spec(a: NodeView) -> NodeView {
    match a {
        NodeView::Value(JsonValue::Str(s)) => match spec_parse_i64(s) {
            Some(i) => NodeView::Value(JsonValue::Number(i as int)),
            None => a,
        },
        _ => a,
    }
}

/// Pre-coercion of integer-looking string literals in arithmetic; `None`
/// when no argument changes.
pub open spec fn precoerce_spec(n: NodeView) -> Option<NodeView> {
    match n {
        NodeView::Builtin(op, args) => if is_arithmetic_spec(op) && exists|i: int| 0 <= i < args.len() && #[trigger] coercible_spec(args[i]) {
            Some(NodeView::Builtin(op, args.map_values(|a: NodeView| coerce_arg_spec(a))))
        } else {
            None
        },
        _ => None,
    }
}

/// Pre-coerces integer-looking string literals in an arithmetic node.
pub fn precoerce_numeric_strings(node: &CompiledNode) -> (r: Option<CompiledNode>)
    ensures
        opt_node_view(r) == precoerce_spec(node@),
{
    match node {
        CompiledNode::BuiltinOperator { opcode, args } => {
            if !is_arithmetic(*opcode) {
                return None;
            }
            let ghost nv = nodes_view(args@);
            let mut changed = false;
            let mut new_args: Vec<CompiledNode> = Vec::new();
            let mut i: usize = 0;
            while i < args.len()
                invariant
                    i <= args@.len(),
                    nv == nodes_view(args@),
                    new_args@.len() == i,
                    forall|j: int| 0 <= j < i ==> #[trigger] node_view(new_args@[j]) == coerce_arg_spec(nv[j]),
                    changed <==> exists|j: int| 0 <= j < i && #[trigger] coercible_spec(nv[j]),
                decreases args@.len() - i,
            {
                proof {
                    lemma_nodes_view(args@);
                }
                assert(nv[i as int] == node_view(args@[i as int]));
                let a = match &args[i] {
                    CompiledNode::Value { value: DataValue::String(s) } => {
                        match parse_i64(s.as_str()) {
                            Some(k) => {
                                changed = true;
                                CompiledNode::Value { value: DataValue::Number(k) }
                            },
                            None => args[i].copy(),
                        }
                    },
                    other => other.copy(),
                };
                assert(node_view(a) == coerce_arg_spec(nv[i as int]));
                proof {
                    if coercible_spec(nv[i as int]) {
                        assert(changed);
                    }
                    if changed {
                        if !coercible_spec(nv[i as int]) {
                            let j = choose|j: int| 0 <= j < i && #[trigger] coercible_spec(nv[j]);
                            assert(0 <= j < i + 1 && coercible_spec(nv[j]));
                        }
                    }
                }
                new_args.push(a);
                i = i + 1;
            }
            if changed {
                proof {
                    lemma_nodes_view(new_args@);
                    assert(nodes_view(new_args@) =~= nv.map_values(|a: NodeView| coerce_arg_spec(a)));
                }
                Some(CompiledNode::BuiltinOperator { opcode: *opcode, args: new_args })
            } else {
                None
            }
        },
        _ => None,
    }
}

/// The state of the `cat` scan after `args`: the arguments emitted so far,
/// the literal text being accumulated, and whether two literals merged.
pub open spec fn cat_scan(args: Seq<NodeView>) -> (Seq<NodeView>, Option<Seq<char>>, bool)
    decreases args.len(),
{
    if args.len() == 0 {
        (Seq::empty(), None, false)
    } else {
        let (out, cur, folded) = cat_scan(args.drop_last());
        match args.last() {
            NodeView::Value(JsonValue::Str(s)) => match cur {
                Some(acc) => (out, Some(acc + s), true),
                None => (out, Some(s), folded),
            },
            _ => (
                match cur {
                    Some(acc) => out.push(NodeView::Value(JsonValue::Str(acc))),
                    None => out,
                }.push(args.last()),
                None,
                folded,
            ),
        }
    }
}

/// The emitted arguments with the pending literal flushed.
pub open spec fn flush_spec(out: Seq<NodeView>, cur: Option<Seq<char>>) -> Seq<NodeView> {
    match cur {
        Some(acc) => out.push(NodeView::Value(JsonValue::Str(acc))),
        None => out,
    }
}

/// Merging of adjacent literal strings in `cat`; `None` when no two merge.
pub open spec fn fold_cat_spec(args: Seq<NodeView>) -> Option<NodeView> {
    let (out, cur, folded) = cat_scan(args);
    let merged = flush_spec(out, cur);
    if !folded {
        None
    } else if merged.len() == 1 {
        Some(merged[0])
    } else {
        Some(NodeView::Builtin(OpCode::Cat, merged))
    }
}

/// Merges adjacent literal strings among `cat` arguments.
pub fn try_fold_cat(args: &Vec<CompiledNode>) -> (r: Option<CompiledNode>)
    ensures
        opt_node_view(r) == fold_cat_spec(nodes_view(args@)),
{
    let ghost nv = nodes_view(args@);
    let mut new_args: Vec<CompiledNode> = Vec::new();
    let mut current: Option<String> = None;
    let mut folded_any = false;
    let mut i: usize = 0;
    while i < args.len()
        invariant
            i <= args@.len(),
            nv == nodes_view(args@),
            cat_scan(nv.take(i as int)) == (nodes_view(new_args@), match current {
                Some(c) => Some(c@),
                None => None::<Seq<char>>,
            }, folded_any),
        decreases args@.len() - i,
    {
        proof {
            lemma_nodes_view(args@);
        }
        assert(nv[i as int] == node_view(args@[i as int]));
        assert(nv.take(i as int + 1).drop_last() =~= nv.take(i as int));
        assert(nv.take(i as int + 1).last() == nv[i as int]);
        match &args[i] {
            CompiledNode::Value { value: DataValue::String(s) } => {
                match current {
                    Some(acc) => {
                        let mut acc2 = acc;
                        push_str(&mut acc2, s.as_str());
                        current = Some(acc2);
                        folded_any = true;
                    },
                    None => {
                        current = Some(s.clone());
                    },
                }
            },
            other => {
                let ghost before = nodes_view(new_args@);
                match current {
                    Some(acc) => {
                        new_args.push(CompiledNode::Value { value: DataValue::String(acc) });
                    },
                    None => {},
                }
                let ghost mid = nodes_view(new_args@);
                new_args.push(other.copy());
                current = None;
                assert(nodes_view(new_args@) =~= mid.push(nv[i as int]));
            },
        }
        i = i + 1;
    }
    assert(nv.take(args@.len() as int) =~= nv);
    let ghost out_before = nodes_view(new_args@);
    let ghost cur_view = match &current {
        Some(c) => Some(c@),
        None => None::<Seq<char>>,
    };
    match current {
        Some(acc) => {
            new_args.push(CompiledNode::Value { value: DataValue::String(acc) });
            assert(nodes_view(new_args@) =~= out_before.push(NodeView::Value(JsonValue::Str(acc@))));
        },
        None => {},
    }
    assert(nodes_view(new_args@) == flush_spec(out_before, cur_view));
    if !folded_any {
        return None;
    }
    if new_args.len() == 1 {
        proof {
            lemma_nodes_view(new_args@);
        }
        return Some(new_args[0].copy());
    }
    Some(CompiledNode::BuiltinOperator { opcode: OpCode::Cat, args: new_args })
}

/// The arguments split into those that need no data and the rest, each
/// kept in order.
pub open spec fn partition_static(args: Seq<NodeView>) -> (Seq<NodeView>, Seq<NodeView>)
    decreases args.len(),
{
    if args.len() == 0 {
        (Seq::empty(), Seq::empty())
    } else {
        let (st, dy) = partition_static(args.drop_last());
        if node_static_spec(args.last()) {
            (st.push(args.last()), dy)
        } else {
            (st, dy.push(args.last()))
        }
    }
}

/// Partial folding of `+` or `*`: with at least two arguments that need no
/// data and at least one that does, the former are evaluated together
/// (over `null` data, no frames) and replaced by their value, put first;
/// `None` when that is not the case or the evaluation fails.
pub open spec fn partial_fold_spec(op: OpCode, args: Seq<NodeView>, cfg: EvaluationConfig) -> Option<NodeView> {
    let (st, dy) = partition_static(args);
    if st.len() < 2 || dy.len() == 0 {
        None
    } else {
        match eval_spec(NodeView::Builtin(op, st), Seq::<FrameView>::empty(), JsonValue::Null, cfg, no_ops()) {
            Ok(v) => Some(NodeView::Builtin(op, seq![NodeView::Value(v)] + dy)),
            Err(_) => None,
        }
    }
}

/// One folding pass over the top node, with whether it changed:
/// pre-coercion in arithmetic, then partial folding in `+` and `*`, or
/// merging in `cat`.
pub open spec fn fold_spec(n: NodeView, cfg: EvaluationConfig) -> (NodeView, bool) {
    match n {
        NodeView::Builtin(_, _) => {
            let (n1, coerced) = match precoerce_spec(n) {
                Some(m) => (m, true),
                None => (n, false),
            };
            match n1 {
                NodeView::Builtin(op, args) => if (op == OpCode::Add || op == OpCode::Multiply) && args.len() >= 2 {
                    match partial_fold_spec(op, args, cfg) {
                        Some(m) => (m, true),
                        None => (n1, coerced),
                    }
                } else if op == OpCode::Cat && args.len() >= 2 {
                    match fold_cat_spec(args) {
                        Some(m) => (m, true),
                        None => (n1, coerced),
                    }
                } else {
                    (n1, coerced)
                },
                _ => (n1, coerced),
            }
        },
        _ => (n, false),
    }
}

/// Partial folding of `+` or `*` over the engine's settings.
pub fn try_partial_fold(opcode: OpCode, args: &Vec<CompiledNode>, cfg: &EvaluationConfig) -> (r: Option<CompiledNode>)
    ensures
        opt_node_view(r) == partial_fold_spec(opcode, nodes_view(args@), *cfg),
{
    let ghost nv = nodes_view(args@);
    let mut st: Vec<CompiledNode> = Vec::new();
    let mut dy: Vec<CompiledNode> = Vec::new();
    let mut i: usize = 0;
    while i < args.len()
        invariant
            i <= args@.len(),
            nv == nodes_view(args@),
            partition_static(nv.take(i as int)) == (nodes_view(st@), nodes_view(dy@)),
        decreases args@.len() - i,
    {
        proof {
            lemma_nodes_view(args@);
        }
        assert(nv.take(i as int + 1).drop_last() =~= nv.take(i as int));
        assert(nv.take(i as int + 1).last() == args@[i as int]@);
        let ghost sb = nodes_view(st@);
        let ghost db = nodes_view(dy@);
        if node_is_static(&args[i]) {
            st.push(args[i].copy());
            assert(nodes_view(st@) =~= sb.push(args@[i as int]@));
        } else {
            dy.push(args[i].copy());
            assert(nodes_view(dy@) =~= db.push(args@[i as int]@));
        }
        i = i + 1;
    }
    assert(nv.take(args@.len() as int) =~= nv);
    if st.len() < 2 || dy.len() == 0 {
        return None;
    }
    let static_node = CompiledNode::BuiltinOperator { opcode, args: st };
    let null = DataValue::Null;
    let ctx = DataContextStack::new(&null);
    assert(frames_view(ctx.frames()) =~= Seq::<FrameView>::empty());
    let none: Vec<(String, NoOperator)> = Vec::new();
    assert(ops_view(none@) =~= no_ops());
    match eval_node(&static_node, &ctx, cfg, &none) {
        Ok(v) => {
            let ghost vv = v@;
            let ghost dv = nodes_view(dy@);
            let mut new_args: Vec<CompiledNode> = vec![CompiledNode::Value { value: v }];
            let mut j: usize = 0;
            assert(nodes_view(new_args@) =~= seq![NodeView::Value(vv)] + dv.take(0));
            while j < dy.len()
                invariant
                    j <= dy@.len(),
                    dv == nodes_view(dy@),
                    nodes_view(new_args@) == seq![NodeView::Value(vv)] + dv.take(j as int),
                decreases dy@.len() - j,
            {
                proof {
                    lemma_nodes_view(dy@);
                }
                let ghost before = nodes_view(new_args@);
                new_args.push(dy[j].copy());
                assert(nodes_view(new_args@) =~= before.push(dy@[j as int]@));
                assert(seq![NodeView::Value(vv)] + dv.take(j as int + 1) =~= (seq![NodeView::Value(vv)]
                    + dv.take(j as int)).push(dv[j as int]));
                j = j + 1;
            }
            assert(dv.take(dy@.len() as int) =~= dv);
            Some(CompiledNode::BuiltinOperator { opcode, args: new_args })
        },
        Err(_) => None,
    }
}

/// One folding pass over the top node; the flag says whether it changed.
pub fn fold(node: CompiledNode, engine: &DataLogic) -> (r: (CompiledNode, bool))
    ensures
        (r.0@, r.1) == fold_spec(node@, engine.config_spec()),
{
    match &node {
        CompiledNode::BuiltinOperator { .. } => {},
        _ => {
            return (node, false);
        },
    }
    let (node1, coerced) = match precoerce_numeric_strings(&node) {
        Some(m) => (m, true),
        None => (node, false),
    };
    let rewritten = match &node1 {
        CompiledNode::BuiltinOperator { opcode, args } => {
            proof {
                lemma_nodes_view(args@);
            }
            if (*opcode == OpCode::Add || *opcode == OpCode::Multiply) && args.len() >= 2 {
                try_partial_fold(*opcode, args, engine.config())
            } else if *opcode == OpCode::Cat && args.len() >= 2 {
                try_fold_cat(args)
            } else {
                None
            }
        },
        _ => None,
    };
    match rewritten {
        Some(m) => (m, true),
        None => (node1, coerced),
    }
}

/// One strength-reduction pass over the top node, with whether it
/// changed: `!` over `!` and `!!` over `!!` become `!!` of the inner
/// argument.
pub open spec fn reduce_spec(n: NodeView) -> (NodeView, bool) {
    match n {
        NodeView::Builtin(op, args) => if (op == OpCode::Not || op == OpCode::DoubleNot) && args.len() == 1 {
            match args[0] {
                NodeView::Builtin(inner_op, inner_args) => if inner_op == op && inner_args.len() == 1 {
                    (NodeView::Builtin(OpCode::DoubleNot, inner_args), true)
                } else {
                    (n, false)
                },
                _ => (n, false),
            }
        } else {
            (n, false)
        },
        _ => (n, false),
    }
}

/// One strength-reduction pass over the top node.
pub fn reduce(node: CompiledNode) -> (r: (CompiledNode, bool))
    ensures
        (r.0@, r.1) == reduce_spec(node@),
{
    let ghost nv = node@;
    match &node {
        CompiledNode::BuiltinOperator { opcode, args } => {
            if (*opcode == OpCode::Not || *opcode == OpCode::DoubleNot) && args.len() == 1 {
                proof {
                    lemma_nodes_view(args@);
                }
                assert(nv == NodeView::Builtin(*opcode, nodes_view(args@)));
                match &args[0] {
                    CompiledNode::BuiltinOperator { opcode: inner_op, args: inner_args } => {
                        assert(nodes_view(args@)[0] == NodeView::Builtin(*inner_op, nodes_view(inner_args@)));
                        if *inner_op == *opcode && inner_args.len() == 1 {
                            proof {
                                lemma_nodes_view(inner_args@);
                            }
                            let m = CompiledNode::BuiltinOperator {
                                opcode: OpCode::DoubleNot,
                                args: crate::node::copy_nodes(inner_args),
                            };
                            assert(m@ == reduce_spec(nv).0);
                            return (m, true);
                        }
                    },
                    _ => {},
                }
            }
        },
        _ => {},
    }
    (node, false)
}

/// One round of the three passes, with whether any changed the node.
pub open spec fn round_spec(n: NodeView, cfg: EvaluationConfig) -> (NodeView, bool) {
    let (a, c1) = eliminate_spec(n, cfg.truthy_evaluator);
    let (b, c2) = fold_spec(a, cfg);
    let (c, c3) = reduce_spec(b);
    (c, c1 || c2 || c3)
}

/// Up to `k` rounds, stopping after the first round that changes nothing.
pub open spec fn optimize_iter(n: NodeView, cfg: EvaluationConfig, k: nat) -> NodeView
    decreases k,
{
    if k == 0 {
        n
    } else {
        let (m, changed) = round_spec(n, cfg);
        if !changed {
            m
        } else {
            optimize_iter(m, cfg, (k - 1) as nat)
        }
    }
}

/// The optimiser: at most four rounds of the passes.
pub open spec fn optimize_spec(n: NodeView, cfg: EvaluationConfig) -> NodeView {
    optimize_iter(n, cfg, 4)
}

/// Runs up to `k` rounds of the passes, stopping after a round that
/// changes nothing.
fn optimize_rounds(node: CompiledNode, engine: &DataLogic, k: usize) -> (r: CompiledNode)
    ensures
        r@ == optimize_iter(node@, engine.config_spec(), k as nat),
    decreases k,
{
    if k == 0 {
        return node;
    }
    let ghost before = node@;
    let (n1, c1) = eliminate(node, engine.config().truthy_evaluator);
    let (n2, c2) = fold(n1, engine);
    let (n3, c3) = reduce(n2);
    assert(round_spec(before, engine.config_spec()) == (n3@, c1 || c2 || c3));
    if !(c1 || c2 || c3) {
        n3
    } else {
        optimize_rounds(n3, engine, k - 1)
    }
}

/// Runs the passes on the top node until a round changes nothing, for at
/// most four rounds.
pub fn optimize(node: CompiledNode, engine: &DataLogic) -> (r: CompiledNode)
    ensures
        r@ == optimize_spec(node@, engine.config_spec()),
{
    optimize_rounds(node, engine, 4)
}

/// The operators that can be evaluated without data once their arguments
/// can: everything but context reads, iteration, error handling, the clock
/// and the operators that must see their literal arguments at run time.
pub open spec fn opcode_pure_spec(op: OpCode) -> bool {
    !(op == OpCode::Var || op == OpCode::Val || op == OpCode::Missing || op == OpCode::MissingSome
        || op == OpCode::Exists || op == OpCode::MapArray || op == OpCode::Filter
        || op == OpCode::Reduce || op == OpCode::All || op == OpCode::SomeOf
        || op == OpCode::NoneOf || op == OpCode::Try || op == OpCode::Throw || op == OpCode::Now
        || op == OpCode::Preserve || op == OpCode::Merge || op == OpCode::Min
        || op == OpCode::Max)
}

/// A node that needs no data to evaluate.
pub open spec fn node_static_spec(n: NodeView) -> bool
    decreases n,
{
    match n {
        NodeView::Value(_) => true,
        NodeView::Array(nodes) => all_static_spec(nodes),
        NodeView::Builtin(op, args) => opcode_pure_spec(op) && all_static_spec(args),
        NodeView::Structured(fields) => all_fields_static_spec(fields),
        _ => false,
    }
}

/// Every node of `s` needs no data.
pub open spec fn all_static_spec(s: Seq<NodeView>) -> bool
    decreases s,
{
    if s.len() == 0 {
        true
    } else {
        all_static_spec(s.subrange(0, s.len() - 1)) && node_static_spec(s[s.len() - 1])
    }
}

/// Every field node of `s` needs no data.
pub open spec fn all_fields_static_spec(s: Seq<(Seq<char>, NodeView)>) -> bool
    decreases s,
{
    if s.len() == 0 {
        true
    } else {
        all_fields_static_spec(s.subrange(0, s.len() - 1)) && node_static_spec(s[s.len() - 1].1)
    }
}

/// Whether `opcode` over `args` needs no data to evaluate.
pub fn opcode_is_static(opcode: OpCode, args: &Vec<CompiledNode>) -> (r: bool)
    ensures
        r == (opcode_pure_spec(opcode) && all_static_spec(nodes_view(args@))),
    decreases args, 1nat,
{
    match opcode {
        OpCode::Var | OpCode::Val | OpCode::Missing | OpCode::MissingSome | OpCode::Exists => false,
        OpCode::MapArray | OpCode::Filter | OpCode::Reduce | OpCode::All | OpCode::SomeOf | OpCode::NoneOf => false,
        OpCode::Try | OpCode::Throw => false,
        OpCode::Now => false,
        OpCode::Preserve => false,
        OpCode::Merge | OpCode::Min | OpCode::Max => false,
        _ => all_nodes_static(args),
    }
}

/// Whether every node of `items` needs no data.
fn all_nodes_static(items: &Vec<CompiledNode>) -> (r: bool)
    ensures
        r == all_static_spec(nodes_view(items@)),
    decreases items, 0nat,
{
    let ghost nv = nodes_view(items@);
    let mut i: usize = 0;
    while i < items.len()
        invariant
            i <= items@.len(),
            nv == nodes_view(items@),
            all_static_spec(nv.take(i as int)),
        decreases items@.len() - i,
    {
        proof {
            lemma_nodes_view(items@);
            assert(decreases_to!(items => items@));
            assert(decreases_to!(items@ => items@[i as int]));
        }
        assert(nv.take(i as int + 1).subrange(0, i as int) =~= nv.take(i as int));
        if !node_is_static(&items[i]) {
            proof {
                if all_static_spec(nv) {
                    lemma_all_static_prefix(nv, i as int + 1);
                }
            }
            return false;
        }
        i = i + 1;
    }
    assert(nv.take(items@.len() as int) =~= nv);
    true
}

/// Every prefix of an all-static sequence is all static.
proof fn lemma_all_static_prefix(s: Seq<NodeView>, k: int)
    requires
        0 <= k <= s.len(),
        all_static_spec(s),
    ensures
        all_static_spec(s.take(k)),
    decreases s.len(),
{
    if k < s.len() {
        assert(s.subrange(0, s.len() - 1).take(k) =~= s.take(k));
        lemma_all_static_prefix(s.subrange(0, s.len() - 1), k);
    } else {
        assert(s.take(k) =~= s);
    }
}

/// Every prefix of an all-static field sequence is all static.
proof fn lemma_all_fields_static_prefix(s: Seq<(Seq<char>, NodeView)>, k: int)
    requires
        0 <= k <= s.len(),
        all_fields_static_spec(s),
    ensures
        all_fields_static_spec(s.take(k)),
    decreases s.len(),
{
    if k < s.len() {
        assert(s.subrange(0, s.len() - 1).take(k) =~= s.take(k));
        lemma_all_fields_static_prefix(s.subrange(0, s.len() - 1), k);
    } else {
        assert(s.take(k) =~= s);
    }
}

/// Whether a node needs no data to evaluate.
pub fn node_is_static(node: &CompiledNode) -> (r: bool)
    ensures
        r == node_static_spec(node@),
    decreases node, 2nat,
{
    match node {
        CompiledNode::Value { .. } => true,
        CompiledNode::Array { nodes } => all_nodes_static(nodes),
        CompiledNode::BuiltinOperator { opcode, args } => opcode_is_static(*opcode, args),
        CompiledNode::StructuredObject { fields } => all_fields_static(fields),
        _ => false,
    }
}

/// Whether every field node of `fields` needs no data.
fn all_fields_static(fields: &Vec<(String, CompiledNode)>) -> (r: bool)
    ensures
        r == all_fields_static_spec(fields_view(fields@)),
    decreases fields, 0nat,
{
    let ghost fv = fields_view(fields@);
    let mut i: usize = 0;
    while i < fields.len()
        invariant
            i <= fields@.len(),
            fv == fields_view(fields@),
            all_fields_static_spec(fv.take(i as int)),
        decreases fields@.len() - i,
    {
        proof {
            lemma_fields_view(fields@);
            assert(decreases_to!(fields => fields@));
            assert(decreases_to!(fields@ => fields@[i as int]));
            assert(decreases_to!(fields@[i as int] => fields@[i as int].1));
        }
        assert(fv.take(i as int + 1).subrange(0, i as int) =~= fv.take(i as int));
        if !node_is_static(&fields[i].1) {
            proof {
                if all_fields_static_spec(fv) {
                    lemma_all_fields_static_prefix(fv, i as int + 1);
                }
            }
            return false;
        }
        i = i + 1;
    }
    assert(fv.take(fields@.len() as int) =~= fv);
    true
}

/// `{"if": [c, A, B]}` with a truthy literal `c` reduces to `A`.
pub proof fn law_if_true_literal(c: JsonValue, a: NodeView, b: NodeView, t: TruthyEvaluator)
    requires
        truthy_spec(c, t),
    ensures
        eliminate_spec(NodeView::Builtin(OpCode::If, seq![NodeView::Value(c), a, b]), t) == (a, true),
{
    let args = seq![NodeView::Value(c), a, b];
    assert(elim_if_loop(args, 0, Seq::empty(), false, t) == Some(a));
}

/// `{"if": [c, A, B]}` with a falsy literal `c` reduces to `B`.
pub proof fn law_if_false_literal(c: JsonValue, a: NodeView, b: NodeView, t: TruthyEvaluator)
    requires
        !truthy_spec(c, t),
    ensures
        eliminate_spec(NodeView::Builtin(OpCode::If, seq![NodeView::Value(c), a, b]), t) == (b, true),
{
    let args = seq![NodeView::Value(c), a, b];
    assert(elim_if_loop(args, 2, Seq::empty(), true, t) == Some(b));
    assert(elim_if_loop(args, 0, Seq::empty(), false, t) == Some(b));
}

/// `{"?:": [c, A, B]}` reduces to `A` when the literal `c` is truthy and
/// to `B` when it is falsy.
pub proof fn law_ternary_literal(c: JsonValue, a: NodeView, b: NodeView, t: TruthyEvaluator)
    ensures
        eliminate_spec(NodeView::Builtin(OpCode::Ternary, seq![NodeView::Value(c), a, b]), t) == (
            if truthy_spec(c, t) { a } else { b },
            true,
        ),
{
}

/// In `and`, a falsy literal absorbs: `{"and": [c, X]}` with falsy `c` is
/// `c`; a truthy literal is the identity: with truthy `c` it is `X`.
pub proof fn law_and_literal_first(c: JsonValue, x: NodeView, t: TruthyEvaluator)
    ensures
        eliminate_spec(NodeView::Builtin(OpCode::And, seq![NodeView::Value(c), x]), t) == (
            if truthy_spec(c, t) { x } else { NodeView::Value(c) },
            true,
        ),
{
    let args = seq![NodeView::Value(c), x];
    assert(scan_andor(OpCode::And, args, t, false, 2, seq![x]) == Some(x));
    assert(scan_andor(OpCode::And, args, t, false, 2, Seq::empty()) == Some(x));
    assert(scan_andor(OpCode::And, args, t, false, 1, Seq::empty()) == Some(x));
}

/// In `or`, a truthy literal absorbs: `{"or": [c, X]}` with truthy `c` is
/// `c`; a falsy literal is the identity: with falsy `c` it is `X`.
pub proof fn law_or_literal_first(c: JsonValue, x: NodeView, t: TruthyEvaluator)
    ensures
        eliminate_spec(NodeView::Builtin(OpCode::Or, seq![NodeView::Value(c), x]), t) == (
            if truthy_spec(c, t) { NodeView::Value(c) } else { x },
            true,
        ),
{
    let args = seq![NodeView::Value(c), x];
    assert(scan_andor(OpCode::Or, args, t, true, 2, seq![x]) == Some(x));
    assert(scan_andor(OpCode::Or, args, t, true, 2, Seq::empty()) == Some(x));
    assert(scan_andor(OpCode::Or, args, t, true, 1, Seq::empty()) == Some(x));
}

/// `{"!": [{"!": [X]}]}` becomes `{"!!": [X]}`, and `{"!!": [{"!!": [X]}]}`
/// becomes `{"!!": [X]}`.
pub proof fn law_double_negation(x: NodeView)
    ensures
        reduce_spec(NodeView::Builtin(OpCode::Not, seq![NodeView::Builtin(OpCode::Not, seq![x])])) == (
            NodeView::Builtin(OpCode::DoubleNot, seq![x]),
            true,
        ),
        reduce_spec(NodeView::Builtin(OpCode::DoubleNot, seq![NodeView::Builtin(OpCode::DoubleNot, seq![x])])) == (
            NodeView::Builtin(OpCode::DoubleNot, seq![x]),
            true,
        ),
{
}

/// Two adjacent literal strings ahead of a non-string argument merge:
/// `{"cat": [a, b, X]}` becomes `{"cat": [a + b, X]}`.
pub proof fn law_cat_merges_literals(a: Seq<char>, b: Seq<char>, x: NodeView)
    requires
        !(x matches NodeView::Value(JsonValue::Str(_))),
    ensures
        fold_cat_spec(seq![NodeView::Value(JsonValue::Str(a)), NodeView::Value(JsonValue::Str(b)), x]) == Some(
            NodeView::Builtin(OpCode::Cat, seq![NodeView::Value(JsonValue::Str(a + b)), x]),
        ),
{
    let args = seq![NodeView::Value(JsonValue::Str(a)), NodeView::Value(JsonValue::Str(b)), x];
    let one = args.drop_last().drop_last();
    assert(one =~= seq![NodeView::Value(JsonValue::Str(a))]);
    assert(one.drop_last() =~= Seq::<NodeView>::empty());
    assert(one.last() == NodeView::Value(JsonValue::Str(a)));
    assert(cat_scan(one.drop_last()) == (Seq::<NodeView>::empty(), None::<Seq<char>>, false));
    assert(args.drop_last().last() == NodeView::Value(JsonValue::Str(b)));
    assert(cat_scan(args.drop_last().drop_last()) == (Seq::<NodeView>::empty(), Some(a), false));
    assert(cat_scan(args.drop_last()) == (Seq::<NodeView>::empty(), Some(a + b), true));
    assert(cat_scan(args).0 =~= seq![NodeView::Value(JsonValue::Str(a + b)), x]);
}

/// A string literal that reads as an integer becomes that integer in an
/// arithmetic operator: `{"+": ["5", X]}` becomes `{"+": [5, X]}`.
pub proof fn law_precoerce_integer_string(op: OpCode, s: Seq<char>, x: NodeView)
    requires
        is_arithmetic_spec(op),
        spec_parse_i64(s) is Some,
        !(x matches NodeView::Value(JsonValue::Str(_))),
    ensures
        precoerce_spec(NodeView::Builtin(op, seq![NodeView::Value(JsonValue::Str(s)), x])) == Some(
            NodeView::Builtin(
                op,
                seq![NodeView::Value(JsonValue::Number(spec_parse_i64(s)->0 as int)), x],
            ),
        ),
{
    let args = seq![NodeView::Value(JsonValue::Str(s)), x];
    assert(coercible_spec(args[0]));
    assert(args.map_values(|a: NodeView| coerce_arg_spec(a)) =~= seq![
        NodeView::Value(JsonValue::Number(spec_parse_i64(s)->0 as int)),
        x,
    ]);
}

/// A pass that reports no change hands back its input.
pub proof fn law_unchanged_pass_keeps_node(n: NodeView, cfg: EvaluationConfig)
    ensures
        !eliminate_spec(n, cfg.truthy_evaluator).1 ==> eliminate_spec(n, cfg.truthy_evaluator).0 == n,
        !fold_spec(n, cfg).1 ==> fold_spec(n, cfg).0 == n,
        !reduce_spec(n).1 ==> reduce_spec(n).0 == n,
        !round_spec(n, cfg).1 ==> round_spec(n, cfg).0 == n,
{
}

/// The optimiser stops at a fixpoint: a node that no pass changes comes
/// back unchanged.
pub proof fn law_optimize_fixpoint(n: NodeView, cfg: EvaluationConfig)
    requires
        !round_spec(n, cfg).1,
    ensures
        optimize_spec(n, cfg) == n,
{
    law_unchanged_pass_keeps_node(n, cfg);
}

/// The passes rewrite operator nodes only: any other node comes back
/// unchanged and reported unchanged.
pub proof fn law_passes_touch_only_operators(n: NodeView, cfg: EvaluationConfig)
    requires
        !(n is Builtin),
    ensures
        eliminate_spec(n, cfg.truthy_evaluator) == (n, false),
        fold_spec(n, cfg) == (n, false),
        reduce_spec(n) == (n, false),
        optimize_spec(n, cfg) == n,
{
}

/// Two integer literals ahead of an argument that needs data fold into
/// their sum: `{"+": [a, b, X]}` becomes `{"+": [a + b, X]}` when the sum
/// fits in 64 bits.
pub proof fn law_partial_fold_add_literals(a: int, b: int, x: NodeView)
    requires
        fits(a),
        fits(b),
        fits(a + b),
        !node_static_spec(x),
    ensures
        partial_fold_spec(
            OpCode::Add,
            seq![NodeView::Value(JsonValue::Number(a)), NodeView::Value(JsonValue::Number(b)), x],
            default_config(),
        ) == Some(NodeView::Builtin(OpCode::Add, seq![NodeView::Value(JsonValue::Number(a + b)), x])),
{
    let args = seq![NodeView::Value(JsonValue::Number(a)), NodeView::Value(JsonValue::Number(b)), x];
    assert(args.drop_last().drop_last().drop_last() =~= Seq::<NodeView>::empty());
    assert(args.drop_last().drop_last() =~= seq![NodeView::Value(JsonValue::Number(a))]);
    assert(args.drop_last() =~= seq![NodeView::Value(JsonValue::Number(a)), NodeView::Value(JsonValue::Number(b))]);
    let st = seq![NodeView::Value(JsonValue::Number(a)), NodeView::Value(JsonValue::Number(b))];
    let one = args.drop_last().drop_last();
    assert(partition_static(one.drop_last()) == (Seq::<NodeView>::empty(), Seq::<NodeView>::empty()));
    assert(one.last() == NodeView::Value(JsonValue::Number(a)));
    assert(node_static_spec(one.last()));
    assert(partition_static(one).0 =~= seq![NodeView::Value(JsonValue::Number(a))]);
    assert(partition_static(one).1 =~= Seq::<NodeView>::empty());
    assert(partition_static(args.drop_last()).0 =~= st);
    assert(partition_static(args) == (st, seq![x]));
    let fr = Seq::<FrameView>::empty();
    let cfg = default_config();
    assert(eval_seq(st, 2, fr, JsonValue::Null, cfg, no_ops()) == Ok::<Seq<JsonValue>, EvalError>(Seq::empty()));
    assert(st[1] == NodeView::Value(JsonValue::Number(b)));
    assert(st[0] == NodeView::Value(JsonValue::Number(a)));
    assert(eval_spec(st[1], fr, JsonValue::Null, cfg, no_ops()) == Ok::<JsonValue, EvalError>(JsonValue::Number(b)));
    assert(eval_seq(st, 1, fr, JsonValue::Null, cfg, no_ops()) == Ok::<Seq<JsonValue>, EvalError>(seq![JsonValue::Number(b)])) by {
        assert(seq![JsonValue::Number(b)] + Seq::<JsonValue>::empty() =~= seq![JsonValue::Number(b)]);
    }
    let vs = seq![JsonValue::Number(a), JsonValue::Number(b)];
    assert(eval_spec(st[0], fr, JsonValue::Null, cfg, no_ops()) == Ok::<JsonValue, EvalError>(JsonValue::Number(a)));
    assert(eval_seq(st, 0, fr, JsonValue::Null, cfg, no_ops()) == Ok::<Seq<JsonValue>, EvalError>(vs)) by {
        assert(seq![JsonValue::Number(a)] + seq![JsonValue::Number(b)] =~= vs);
    }
    assert(operands_spec(vs, 2, cfg) == Ok::<Option<Seq<i64>>, EvalError>(Some(Seq::empty())));
    assert(operands_spec(vs, 1, cfg) == Ok::<Option<Seq<i64>>, EvalError>(Some(seq![b as i64]))) by {
        assert(seq![b as i64] + Seq::<i64>::empty() =~= seq![b as i64]);
    }
    let xs = seq![a as i64, b as i64];
    assert(operands_spec(vs, 0, cfg) == Ok::<Option<Seq<i64>>, EvalError>(Some(xs))) by {
        assert(seq![a as i64] + seq![b as i64] =~= xs);
    }
    assert(checked_sum(a + b, xs, 2) == Some(a + b));
    assert(checked_sum(a, xs, 1) == Some(a + b));
    assert(xs[0] as int == a && xs[1] as int == b);
    assert(checked_sum(0, xs, 0) == Some(a + b));
    assert(apply_spec(OpCode::Add, vs, cfg) == Ok::<JsonValue, EvalError>(JsonValue::Number(a + b)));
    assert(eval_spec(NodeView::Builtin(OpCode::Add, st), fr, JsonValue::Null, cfg, no_ops()) == Ok::<JsonValue, EvalError>(
        JsonValue::Number(a + b),
    ));
    assert(seq![NodeView::Value(JsonValue::Number(a + b))] + seq![x] =~= seq![
        NodeView::Value(JsonValue::Number(a + b)),
        x,
    ]);
}

/// `if` from position `k + j` of `s` is `if` from position `j` of the
/// arguments after the first `k`.
proof fn lemma_if_shift<O: Operator>(s: Seq<NodeView>, k: nat, j: nat, fr: Seq<FrameView>, rt: JsonValue, cfg: EvaluationConfig, ops: Seq<(Seq<char>, O)>)
    requires
        k <= s.len(),
    ensures
        eval_if(s, k + j, fr, rt, cfg, ops) == eval_if(s.skip(k as int), j, fr, rt, cfg, ops),
    decreases s.len() - k - j,
{
    let t = s.skip(k as int);
    if k + j < s.len() {
        assert(s[(k + j) as int] == t[j as int]);
        if k + j + 1 < s.len() {
            assert(s[(k + j + 1) as int] == t[(j + 1) as int]);
            lemma_if_shift(s, k, j + 2, fr, rt, cfg, ops);
            assert(k + (j + 2) == (k + j) + 2);
        }
    }
}

/// Pairs of conditions and branches in front of two `if` tails with the
/// same value give the same value.
proof fn lemma_if_prefix<O: Operator>(
    p: Seq<NodeView>,
    r1: Seq<NodeView>,
    r2: Seq<NodeView>,
    j: nat,
    fr: Seq<FrameView>,
    rt: JsonValue,
    cfg: EvaluationConfig,
    ops: Seq<(Seq<char>, O)>,
)
    requires
        p.len() % 2 == 0,
        j % 2 == 0,
        j <= p.len(),
        eval_if(r1, 0, fr, rt, cfg, ops) == eval_if(r2, 0, fr, rt, cfg, ops),
    ensures
        eval_if(p + r1, j, fr, rt, cfg, ops) == eval_if(p + r2, j, fr, rt, cfg, ops),
    decreases p.len() - j,
{
    if j == p.len() {
        lemma_if_shift(p + r1, p.len(), 0, fr, rt, cfg, ops);
        lemma_if_shift(p + r2, p.len(), 0, fr, rt, cfg, ops);
        assert((p + r1).skip(p.len() as int) =~= r1);
        assert((p + r2).skip(p.len() as int) =~= r2);
    } else {
        lemma_if_prefix(p, r1, r2, j + 2, fr, rt, cfg, ops);
        assert((p + r1)[j as int] == p[j as int]);
        assert((p + r2)[j as int] == p[j as int]);
        assert((p + r1)[j + 1 as int] == p[j + 1 as int]);
        assert((p + r2)[j + 1 as int] == p[j + 1 as int]);
    }
}

/// The `if` scan keeps the value: while the kept pairs followed by the
/// unscanned arguments evaluate like the original `if`, so does the
/// scan's result.
proof fn lemma_elim_if_loop<O: Operator>(
    args: Seq<NodeView>,
    i: int,
    kept: Seq<NodeView>,
    skipped: bool,
    t: TruthyEvaluator,
    fr: Seq<FrameView>,
    rt: JsonValue,
    cfg: EvaluationConfig,
    ops: Seq<(Seq<char>, O)>,
)
    requires
        0 <= i <= args.len(),
        kept.len() % 2 == 0,
        cfg.truthy_evaluator == t,
        eval_if(kept + args.skip(i), 0, fr, rt, cfg, ops) == eval_if(args, 0, fr, rt, cfg, ops),
    ensures
        elim_if_loop(args, i, kept, skipped, t) matches Some(m) ==> eval_spec(m, fr, rt, cfg, ops) == eval_if(
            args,
            0,
            fr,
            rt,
            cfg,
            ops,
        ),
    decreases args.len() - i,
{
    let goal = eval_if(args, 0, fr, rt, cfg, ops);
    if i >= args.len() {
        assert(kept + args.skip(i) =~= kept);
    } else if i == args.len() - 1 {
        let x = args[i];
        assert(args.skip(i) =~= seq![x]);
        if kept.len() == 0 {
            assert(kept + args.skip(i) =~= seq![x]);
        } else {
            assert(kept + args.skip(i) =~= kept.push(x));
        }
    } else {
        let r = args.skip(i);
        assert(r[0] == args[i]);
        assert(r[1] == args[i + 1]);
        assert(r.len() >= 2);
        if truthy_lit_spec(args[i], t) is Some {
            let v = args[i]->Value_0;
            assert(args[i] == NodeView::Value(v));
            assert(eval_spec(r[0], fr, rt, cfg, ops) == Ok::<JsonValue, EvalError>(v));
            assert(truthy_lit_spec(args[i], t) == Some(truthy_spec(v, t)));
        }
        match truthy_lit_spec(args[i], t) {
            Some(true) => {
                let b = args[i + 1];
                assert(eval_if(seq![b], 0, fr, rt, cfg, ops) == eval_spec(b, fr, rt, cfg, ops));
                assert(eval_if(r, 0, fr, rt, cfg, ops) == eval_spec(b, fr, rt, cfg, ops));
                lemma_if_prefix(kept, r, seq![b], 0, fr, rt, cfg, ops);
                if kept.len() == 0 {
                    assert(kept + r =~= r);
                } else {
                    assert(kept + seq![b] =~= kept.push(b));
                }
            },
            Some(false) => {
                lemma_if_shift(r, 2, 0, fr, rt, cfg, ops);
                assert(r.skip(2) =~= args.skip(i + 2));
                assert(eval_if(r, 0, fr, rt, cfg, ops) == eval_if(r, 2, fr, rt, cfg, ops));
                lemma_if_prefix(kept, r, args.skip(i + 2), 0, fr, rt, cfg, ops);
                lemma_elim_if_loop(args, i + 2, kept, true, t, fr, rt, cfg, ops);
            },
            None => {
                let k2 = kept.push(args[i]).push(args[i + 1]);
                assert(k2 + args.skip(i + 2) =~= kept + args.skip(i));
                lemma_elim_if_loop(args, i + 2, k2, skipped, t, fr, rt, cfg, ops);
            },
        }
    }
}

/// Dead-branch elimination keeps the value of an `if`: on any frames and
/// data, the node the elimination gives evaluates to what the `if` it
/// replaces evaluates to, errors included.
pub proof fn law_eliminate_if_keeps_value<O: Operator>(
    args: Seq<NodeView>,
    t: TruthyEvaluator,
    frames: Seq<FrameView>,
    root: JsonValue,
    cfg: EvaluationConfig,
    ops: Seq<(Seq<char>, O)>,
)
    requires
        cfg.truthy_evaluator == t,
    ensures
        eliminate_if_spec(args, t) matches Some(m) ==> eval_spec(m, frames, root, cfg, ops) == eval_spec(
            NodeView::Builtin(OpCode::If, args),
            frames,
            root,
            cfg,
            ops,
        ),
{
    assert(eval_spec(NodeView::Builtin(OpCode::If, args), frames, root, cfg, ops) == eval_if(args, 0, frames, root, cfg, ops));
    if args.len() > 0 {
        assert(Seq::<NodeView>::empty() + args.skip(0) =~= args);
        lemma_elim_if_loop(args, 0, Seq::empty(), false, t, frames, root, cfg, ops);
    }
}

/// Dead-branch elimination keeps the value of a three-argument `?:`:
/// the branch it picks for a literal condition evaluates to what the `?:`
/// does. (Past three arguments the elimination still picks the third,
/// while evaluation reads the rest as an `if` chain.)
pub proof fn law_eliminate_ternary_keeps_value<O: Operator>(
    args: Seq<NodeView>,
    t: TruthyEvaluator,
    frames: Seq<FrameView>,
    root: JsonValue,
    cfg: EvaluationConfig,
    ops: Seq<(Seq<char>, O)>,
)
    requires
        cfg.truthy_evaluator == t,
        args.len() == 3,
    ensures
        eliminate_ternary_spec(args, t) matches Some(m) ==> eval_spec(m, frames, root, cfg, ops) == eval_spec(
            NodeView::Builtin(OpCode::Ternary, args),
            frames,
            root,
            cfg,
            ops,
        ),
{
    assert(eval_spec(NodeView::Builtin(OpCode::Ternary, args), frames, root, cfg, ops) == eval_if(args, 0, frames, root, cfg, ops));
    if truthy_lit_spec(args[0], t) is Some {
        let v = args[0]->Value_0;
        assert(eval_spec(args[0], frames, root, cfg, ops) == Ok::<JsonValue, EvalError>(v));
        assert(eval_if(args, 2, frames, root, cfg, ops) == eval_spec(args[2], frames, root, cfg, ops));
    }
}

/// Once a literal condition has been dropped, the `if` scan always gives
/// a node.
proof fn lemma_elim_if_skipped_some(args: Seq<NodeView>, i: int, kept: Seq<NodeView>, t: TruthyEvaluator)
    requires
        0 <= i,
    ensures
        elim_if_loop(args, i, kept, true, t) is Some,
    decreases args.len() - i,
{
    if i < args.len() && i != args.len() - 1 {
        match truthy_lit_spec(args[i], t) {
            Some(false) => lemma_elim_if_skipped_some(args, i + 2, kept, t),
            None => lemma_elim_if_skipped_some(args, i + 2, kept.push(args[i]).push(args[i + 1]), t),
            _ => {},
        }
    }
}

/// While no literal condition has been met, the `if` scan leaves the node
/// alone exactly when no later condition is a literal and there are at
/// least two arguments.
proof fn lemma_elim_if_none(args: Seq<NodeView>, i: int, kept: Seq<NodeView>, t: TruthyEvaluator)
    requires
        0 <= i <= args.len(),
        i % 2 == 0,
        kept.len() == i,
    ensures
        elim_if_loop(args, i, kept, false, t) is None <==> (args.len() >= 2 && forall|j: int|
            i <= j < args.len() - 1 && j % 2 == 0 ==> #[trigger] truthy_lit_spec(args[j], t) is None),
    decreases args.len() - i,
{
    if i >= args.len() {
    } else if i == args.len() - 1 {
    } else {
        match truthy_lit_spec(args[i], t) {
            Some(true) => {
                assert(!(truthy_lit_spec(args[i], t) is None));
            },
            Some(false) => {
                lemma_elim_if_skipped_some(args, i + 2, kept, t);
                assert(!(truthy_lit_spec(args[i], t) is None));
            },
            None => {
                let k2 = kept.push(args[i]).push(args[i + 1]);
                lemma_elim_if_none(args, i + 2, k2, t);
                if args.len() >= 2 && (forall|j: int|
                    i + 2 <= j < args.len() - 1 && j % 2 == 0 ==> #[trigger] truthy_lit_spec(args[j], t) is None) {
                    assert forall|j: int| i <= j < args.len() - 1 && j % 2 == 0 implies #[trigger] truthy_lit_spec(
                        args[j],
                        t,
                    ) is None by {
                        if j != i {
                            assert(i + 2 <= j);
                        }
                    }
                }
            },
        }
    }
}

/// Dead-branch elimination leaves an `if` alone exactly when it has at
/// least two arguments and none of its conditions is a literal.
pub proof fn law_eliminate_if_unchanged_exactly_when(args: Seq<NodeView>, t: TruthyEvaluator)
    ensures
        eliminate_if_spec(args, t) is None <==> (args.len() >= 2 && forall|j: int|
            0 <= j < args.len() - 1 && j % 2 == 0 ==> #[trigger] truthy_lit_spec(args[j], t) is None),
{
    if args.len() > 0 {
        lemma_elim_if_none(args, 0, Seq::empty(), t);
    }
}

} // verus!
