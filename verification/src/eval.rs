//! Evaluation of compiled rules over JSON data, with its specification
//! `eval_spec`: literals, arrays and templates; variable access (`var`,
//! `val`, compiled and over run-time paths), `exists`, `missing`,
//! `missing_some`; `throw`, `try`, `??`, `if` / `?:`, `switch`, `and`,
//! `or`; negation, equality, integer comparison and arithmetic (`+`, `-`,
//! `*`, `/`, `%`, `abs`, `min`, `max`, `ceil`, `floor`); the string
//! operators `cat`, `substr`, `upper`, `lower`, `trim`, `split`,
//! `starts_with`, `ends_with`; `in`, `merge`, `slice`, `sort`, `type`,
//! `length`, `preserve`; the iterating operators (`map`, `filter`, `all`,
//! `some`, `none`, `reduce`); and custom operators through the
//! [`Operator`] trait.

use vstd::prelude::*;
use crate::config::{DivisionByZeroHandling, EvaluationConfig, NanHandling};
use crate::constants::{INVALID_ARGS, NAN_ERROR, invalid_args, nan_error};
use crate::context::{ContextFrame, DataContextStack, FrameView, frame_view, frames_view, scope_frame};
use crate::error::{Error, ErrorKind};
use crate::json::{display_text, to_display_string};
use crate::node::{
    missing_min_view, missing_paths_view,
    CompiledNode, MetadataHint, MissingArg, MissingArgView, MissingMin, MissingMinView, MissingPaths,
    MissingPathsView, NodeView, ReduceHint, lemma_missing_args_view, missing_args_view, static_paths_view, fields_view, lemma_fields_view, lemma_nodes_view,
    node_view, nodes_view,
};
use crate::opcode::{OpCode, opcode_name};
use crate::operator::{contains_text, has_text, level_u32, occurs_at, strip_prefix};
use crate::path::{PathSegment, SegmentView, opt_view, segment_of, parse_path_segments, parse_path_spec, segments_view, step_segment, traverse_spec};
use crate::path::key_eq;
use crate::strbuf::push_str;
use crate::text::{parse_usize, format_i64, int_text, parse_i64, spec_parse_i64};
use crate::truthy::{coerce_integer_spec, is_truthy, truthy_spec, try_coerce_to_integer_cfg};
use crate::value::{
    DataValue, JsonValue, lemma_pairs_view, lemma_values_view, pairs_view, values_view,
};

verus! {

broadcast use {
    vstd::string::group_string_axioms,
    lemma_nodes_view,
    lemma_fields_view,
    lemma_values_view,
    lemma_pairs_view,
};

/// What an evaluation failure is, as the evaluator's contract sees it.
pub enum EvalError {
    InvalidOperator(Seq<char>),
    InvalidArguments(Seq<char>),
    ArithmeticError(Seq<char>),
    Thrown(JsonValue),
    Other,
}

/// The model of an error kind.
pub open spec fn error_view(k: ErrorKind) -> EvalError {
    match k {
        ErrorKind::InvalidOperator(s) => EvalError::InvalidOperator(s@),
        ErrorKind::InvalidArguments(s) => EvalError::InvalidArguments(s@),
        ErrorKind::ArithmeticError(s) => EvalError::ArithmeticError(s@),
        ErrorKind::Thrown(v) => EvalError::Thrown(v@),
        _ => EvalError::Other,
    }
}

/// The model of an evaluation outcome.
pub open spec fn result_view(r: Result<DataValue, Error>) -> Result<JsonValue, EvalError> {
    match r {
        Ok(v) => Ok(v@),
        Err(e) => Err(error_view(e.kind)),
    }
}

/// The model of an outcome that is a list of values.
pub open spec fn results_view(r: Result<Vec<DataValue>, Error>) -> Result<Seq<JsonValue>, EvalError> {
    match r {
        Ok(v) => Ok(values_view(v@)),
        Err(e) => Err(error_view(e.kind)),
    }
}

/// An operator that is not built in, registered under a name and handed
/// its evaluated arguments. `evaluate_spec` is what the operator returns
/// for arguments with the given models; every implementation promises that
/// `evaluate` returns exactly that.
pub trait Operator {
    /// What the operator returns for arguments with models `args`.
    spec fn evaluate_spec(&self, args: Seq<JsonValue>) -> Result<JsonValue, EvalError>;

    /// Runs the operator on its evaluated arguments.
    fn evaluate(&self, args: &Vec<DataValue>) -> (r: Result<DataValue, Error>)
        ensures
            result_view(r) == self.evaluate_spec(values_view(args@)),
    ;
}

/// The operator type of an evaluation that registers no custom operator;
/// as an operator it rejects its arguments.
pub struct NoOperator;

impl Operator for NoOperator {
    open spec fn evaluate_spec(&self, args: Seq<JsonValue>) -> Result<JsonValue, EvalError> {
        Err(bad_args())
    }

    fn evaluate(&self, args: &Vec<DataValue>) -> (r: Result<DataValue, Error>) {
        Err(invalid_args())
    }
}

/// A custom operator defined by a compiled rule: the rule is evaluated
/// with the operator's evaluated arguments, as an array, for data, under
/// the settings it was made with and with no custom operator of its own.
pub struct RuleOperator {
    body: CompiledNode,
    cfg: EvaluationConfig,
}

impl RuleOperator {
    /// The rule the operator evaluates.
    pub closed spec fn body_spec(&self) -> NodeView {
        self.body@
    }

    /// The settings the rule is evaluated under.
    pub closed spec fn config_spec(&self) -> EvaluationConfig {
        self.cfg
    }

    /// An operator evaluating `body` under `cfg`.
    pub fn new(body: CompiledNode, cfg: EvaluationConfig) -> (r: Self)
        ensures
            r.body_spec() == body@,
            r.config_spec() == cfg,
    {
        RuleOperator { body, cfg }
    }
}

impl Operator for RuleOperator {
    open spec fn evaluate_spec(&self, args: Seq<JsonValue>) -> Result<JsonValue, EvalError> {
        eval_spec(self.body_spec(), Seq::<FrameView>::empty(), JsonValue::Array(args), self.config_spec(), no_ops())
    }

    fn evaluate(&self, args: &Vec<DataValue>) -> (r: Result<DataValue, Error>) {
        let data = DataValue::Array(crate::value::copy_values(args));
        let ctx = DataContextStack::new(&data);
        assert(frames_view(ctx.frames()) =~= Seq::<FrameView>::empty());
        let none: Vec<(String, NoOperator)> = Vec::new();
        assert(ops_view(none@) =~= no_ops());
        eval_node(&self.body, &ctx, &self.cfg, &none)
    }
}

/// The registered operators by the models of their names.
pub open spec fn ops_view<O>(ops: Seq<(String, O)>) -> Seq<(Seq<char>, O)> {
    ops.map_values(|e: (String, O)| (e.0@, e.1))
}

/// No registered operators.
pub open spec fn no_ops() -> Seq<(Seq<char>, NoOperator)> {
    Seq::empty()
}

/// The position of the first operator registered under `name`, from
/// position `i` on.
pub open spec fn find_op<O>(ops: Seq<(Seq<char>, O)>, name: Seq<char>, i: nat) -> Option<int>
    decreases ops.len() - i,
{
    if i >= ops.len() {
        None
    } else if ops[i as int].0 == name {
        Some(i as int)
    } else {
        find_op(ops, name, i + 1)
    }
}

/// The position of the first operator registered under `name`.
fn find_operator<O>(ops: &Vec<(String, O)>, name: &str) -> (r: Option<usize>)
    ensures
        match r {
            Some(k) => find_op(ops_view(ops@), name@, 0) == Some(k as int) && k < ops@.len(),
            None => find_op(ops_view(ops@), name@, 0) is None,
        },
{
    let ghost ov = ops_view(ops@);
    let mut i: usize = 0;
    while i < ops.len()
        invariant
            i <= ops@.len(),
            ov == ops_view(ops@),
            find_op(ov, name@, 0) == find_op(ov, name@, i as nat),
        decreases ops@.len() - i,
    {
        assert(ov[i as int].0 == ops@[i as int].0@);
        if key_eq(ops[i].0.as_str(), name) {
            return Some(i);
        }
        i = i + 1;
    }
    None
}

/// The payload of the not-a-number error: `{"type": "NaN"}`.
pub open spec fn nan_value() -> JsonValue {
    JsonValue::Object(seq![("type"@, JsonValue::Str(NAN_ERROR@))])
}

/// The error for a wrong number of arguments.
pub open spec fn bad_args() -> EvalError {
    EvalError::InvalidArguments(INVALID_ARGS@)
}

/// The error for an integer result out of the 64-bit range.
pub open spec fn overflow() -> EvalError {
    EvalError::ArithmeticError("Overflow"@)
}

/// The frame `level` levels below the top, if there is one.
pub open spec fn frame_at(frames: Seq<FrameView>, level: nat) -> Option<FrameView> {
    if level < frames.len() {
        Some(frames[frames.len() - 1 - level])
    } else {
        None
    }
}

/// The data a frame exposes: the element, or the reduce element.
pub open spec fn frame_data(f: FrameView) -> JsonValue {
    match f {
        FrameView::Indexed(d, _) => d,
        FrameView::Keyed(d, _, _) => d,
        FrameView::Reduce(c, _) => c,
        FrameView::Data(d) => d,
    }
}

/// The data `level` levels above the current context: a frame's data, or
/// the root input beyond the bottom frame.
pub open spec fn scope_data(frames: Seq<FrameView>, root: JsonValue, level: nat) -> JsonValue {
    match frame_at(frames, level) {
        Some(f) => frame_data(f),
        None => root,
    }
}

/// The reduce state of the top frame, when it is a reduce frame.
pub open spec fn reduce_state(frames: Seq<FrameView>) -> Option<(JsonValue, JsonValue)> {
    match frame_at(frames, 0) {
        Some(FrameView::Reduce(c, a)) => Some((c, a)),
        _ => None,
    }
}

/// The segments after the head segment (`current` or `accumulator`).
pub open spec fn path_tail(segs: Seq<SegmentView>) -> Seq<SegmentView> {
    if segs.len() > 0 {
        segs.skip(1)
    } else {
        segs
    }
}

/// What a compiled variable access finds: iteration metadata, the reduce
/// state (whole, or a path below it), or a path walked from the scope's
/// data; `None` when the path misses.
pub open spec fn var_lookup(
    frames: Seq<FrameView>,
    root: JsonValue,
    level: u32,
    segs: Seq<SegmentView>,
    rh: ReduceHint,
    mh: MetadataHint,
) -> Option<JsonValue> {
    match mh {
        MetadataHint::Index => Some(
            match frame_at(frames, level as nat) {
                Some(FrameView::Indexed(_, i)) => if i <= i64::MAX {
                    JsonValue::Number(i as int)
                } else {
                    JsonValue::Null
                },
                Some(FrameView::Keyed(_, i, _)) => if i <= i64::MAX {
                    JsonValue::Number(i as int)
                } else {
                    JsonValue::Null
                },
                _ => JsonValue::Null,
            },
        ),
        MetadataHint::Key => Some(
            match frame_at(frames, level as nat) {
                Some(FrameView::Keyed(_, _, key)) => JsonValue::Str(key),
                _ => JsonValue::Null,
            },
        ),
        MetadataHint::NoHint => match (rh, reduce_state(frames)) {
            (ReduceHint::Current, Some(st)) => Some(st.0),
            (ReduceHint::Accumulator, Some(st)) => Some(st.1),
            (ReduceHint::CurrentPath, Some(st)) => traverse_spec(st.0, path_tail(segs)),
            (ReduceHint::AccumulatorPath, Some(st)) => traverse_spec(st.1, path_tail(segs)),
            _ => traverse_spec(scope_data(frames, root, level as nat), segs),
        },
    }
}

/// `r` with `p` put in front of its values.
pub open spec fn prepend_ok(p: Seq<JsonValue>, r: Result<Seq<JsonValue>, EvalError>) -> Result<
    Seq<JsonValue>,
    EvalError,
> {
    match r {
        Ok(t) => Ok(p + t),
        Err(e) => Err(e),
    }
}

/// `r` with the entries `p` put in front.
pub open spec fn prepend_fields(
    p: Seq<(Seq<char>, JsonValue)>,
    r: Result<Seq<(Seq<char>, JsonValue)>, EvalError>,
) -> Result<Seq<(Seq<char>, JsonValue)>, EvalError> {
    match r {
        Ok(t) => Ok(p + t),
        Err(e) => Err(e),
    }
}

/// The operators whose arguments are all evaluated first, in order.
pub open spec fn is_strict_op(op: OpCode) -> bool {
    match op {
        OpCode::Not | OpCode::DoubleNot | OpCode::Equals | OpCode::NotEquals | OpCode::StrictEquals
        | OpCode::StrictNotEquals | OpCode::LessThan | OpCode::LessThanEqual | OpCode::GreaterThan
        | OpCode::GreaterThanEqual | OpCode::Add | OpCode::Subtract | OpCode::Multiply | OpCode::Min
        | OpCode::Max | OpCode::Cat | OpCode::Merge | OpCode::In | OpCode::Type | OpCode::Length
        | OpCode::Upper | OpCode::Lower | OpCode::Trim | OpCode::Split | OpCode::Slice
        | OpCode::Substr | OpCode::Modulo | OpCode::Divide | OpCode::Preserve | OpCode::Sort | OpCode::Abs | OpCode::Ceil | OpCode::Floor | OpCode::Throw | OpCode::StartsWith | OpCode::EndsWith => true,
        _ => false,
    }
}

/// The value of a node in a context with `frames` over `root`.
///
/// Literals are themselves; arrays and templates evaluate their parts in
/// order and stop at the first error; `throw` fails with its payload; a
/// variable that is not found gives its default, or `null`; `exists`
/// tells whether the path is there. `if`/`?:`, `and`, `or`, `??` and
/// `try` evaluate only what they need. `map`, `filter`, `all`, `some`, `none` and
/// `reduce` walk an array (see [`eval_iter`]). The strict operators
/// evaluate every argument and
/// then apply [`apply_spec`]. A custom operator registered in `ops`
/// (the first under its name) gets its evaluated arguments and gives what
/// its [`Operator::evaluate_spec`] says; one that is not registered fails
/// with `InvalidOperator` and its name, before its arguments are
/// evaluated, as do `now` and the date operators.
pub open spec fn eval_spec<O: Operator>(
    n: NodeView,
    frames: Seq<FrameView>,
    root: JsonValue,
    cfg: EvaluationConfig,
    ops: Seq<(Seq<char>, O)>,
) -> Result<JsonValue, EvalError>
    decreases n, 0nat,
{
    match n {
        NodeView::Value(v) => Ok(v),
        NodeView::Array(ns) => match eval_seq(ns, 0, frames, root, cfg, ops) {
            Ok(vs) => Ok(JsonValue::Array(vs)),
            Err(e) => Err(e),
        },
        NodeView::Structured(fs) => match eval_fields(fs, 0, frames, root, cfg, ops) {
            Ok(ps) => Ok(JsonValue::Object(ps)),
            Err(e) => Err(e),
        },
        NodeView::Throw(v) => Err(EvalError::Thrown(v)),
        NodeView::Custom(name, cargs) => match find_op(ops, name, 0) {
            None => Err(EvalError::InvalidOperator(name)),
            Some(k) => match eval_seq(cargs, 0, frames, root, cfg, ops) {
                Ok(vs) => ops[k].1.evaluate_spec(vs),
                Err(e) => Err(e),
            },
        },
        NodeView::Var { scope_level, segments, reduce_hint, metadata_hint, default_value } => match var_lookup(
            frames,
            root,
            scope_level,
            segments,
            reduce_hint,
            metadata_hint,
        ) {
            Some(v) => Ok(v),
            None => match default_value {
                Some(d) => eval_spec(*d, frames, root, cfg, ops),
                None => Ok(JsonValue::Null),
            },
        },
        NodeView::Exists { scope_level, segments } => Ok(
            JsonValue::Bool(traverse_spec(scope_data(frames, root, scope_level as nat), segments) is Some),
        ),
        NodeView::Missing(margs) => match missing_args(margs, 0, frames, root, cfg, ops) {
            Ok(ps) => Ok(JsonValue::Array(ps)),
            Err(e) => Err(e),
        },
        NodeView::MissingSome(mn, mp) => {
            let data = scope_data(frames, root, 0);
            let min_r: Result<int, EvalError> = match mn {
                MissingMinView::Static(k) => Ok(k as int),
                MissingMinView::Dynamic(b) => match eval_spec(*b, frames, root, cfg, ops) {
                    Ok(v) => match coerce_integer_spec(v, cfg.numeric_coercion) {
                        Some(x) => Ok(x as int),
                        None => Err(bad_args()),
                    },
                    Err(e) => Err(e),
                },
            };
            match min_r {
                Err(e) => Err(e),
                Ok(k) => {
                    let pr: Result<(int, Seq<JsonValue>), EvalError> = match mp {
                        MissingPathsView::Static(list) => Ok((list.len() as int, static_missing(data, list, 0))),
                        MissingPathsView::Dynamic(b) => match eval_spec(*b, frames, root, cfg, ops) {
                            Ok(v) => Ok((dyn_paths(v).len() as int, missing_of_paths(data, dyn_paths(v), 0))),
                            Err(e) => Err(e),
                        },
                    };
                    match pr {
                        Err(e) => Err(e),
                        Ok(tm) => Ok(JsonValue::Array(if tm.0 - tm.1.len() >= k { Seq::empty() } else { tm.1 })),
                    }
                },
            }
        },
        NodeView::Builtin(op, args) => if op == OpCode::If || op == OpCode::Ternary {
            eval_if(args, 0, frames, root, cfg, ops)
        } else if op == OpCode::And {
            eval_and(args, 0, frames, root, cfg, ops)
        } else if op == OpCode::Or {
            eval_or(args, 0, frames, root, cfg, ops)
        } else if op == OpCode::Var || op == OpCode::Exists {
            match eval_seq(args, 0, frames, root, cfg, ops) {
                Ok(vs) => Ok(
                    if op == OpCode::Var {
                        var_dyn_spec(scope_data(frames, root, 0), vs)
                    } else {
                        JsonValue::Bool(exists_dyn_spec(scope_data(frames, root, 0), vs))
                    },
                ),
                Err(e) => Err(e),
            }
        } else if op == OpCode::Val {
            match eval_seq(args, 0, frames, root, cfg, ops) {
                Ok(vs) => Ok(val_dyn_spec(frames, root, vs)),
                Err(e) => Err(e),
            }
        } else if op == OpCode::Switch {
            eval_switch(args, frames, root, cfg, ops)
        } else if op == OpCode::Coalesce {
            eval_coalesce(args, 0, frames, root, cfg, ops)
        } else if op == OpCode::Try {
            eval_try(args, 0, frames, root, cfg, ops)
        } else if is_iter_op(op) {
            eval_iter(op, args, frames, root, cfg, ops)
        } else if is_strict_op(op) {
            match eval_seq(args, 0, frames, root, cfg, ops) {
                Ok(vs) => apply_spec(op, vs, cfg),
                Err(e) => Err(e),
            }
        } else {
            Err(EvalError::InvalidOperator(opcode_name(op)))
        },
    }
}

/// The operators that walk the elements of their first argument with a
/// frame pushed for each.
pub open spec fn is_iter_op(op: OpCode) -> bool {
    op == OpCode::MapArray || op == OpCode::Filter || op == OpCode::All || op == OpCode::SomeOf
        || op == OpCode::NoneOf || op == OpCode::Reduce
}

/// The elements an iterating operator walks: an array's elements, and
/// none for any other value.
pub open spec fn iter_items(v: JsonValue) -> Seq<JsonValue> {
    match v {
        JsonValue::Array(xs) => xs,
        _ => Seq::empty(),
    }
}

/// The frame pushed for element `i`.
pub open spec fn item_frame(items: Seq<JsonValue>, i: nat) -> FrameView {
    FrameView::Indexed(items[i as int], i as usize)
}

/// An iterating operator: its first argument gives the elements, its
/// second is evaluated once per element with the element's frame on top.
/// `map` gives the values, `filter` the elements whose value is true,
/// `all` whether every value is true (false with no elements), `some`
/// whether one is, `none` whether none is, and `reduce` threads an
/// accumulator (its third argument, `null` when absent) through the
/// elements. Fewer than two arguments is an error.
pub open spec fn eval_iter<O: Operator>(
    op: OpCode,
    args: Seq<NodeView>,
    frames: Seq<FrameView>,
    root: JsonValue,
    cfg: EvaluationConfig,
    ops: Seq<(Seq<char>, O)>,
) -> Result<JsonValue, EvalError>
    decreases args, 0nat,
{
    if args.len() < 2 {
        Err(bad_args())
    } else {
        match eval_spec(args[0], frames, root, cfg, ops) {
            Err(e) => Err(e),
            Ok(v) => {
                let items = iter_items(v);
                if op == OpCode::MapArray {
                    match map_items(args[1], items, 0, frames, root, cfg, ops) {
                        Ok(vs) => Ok(JsonValue::Array(vs)),
                        Err(e) => Err(e),
                    }
                } else if op == OpCode::Filter {
                    match filter_items(args[1], items, 0, frames, root, cfg, ops) {
                        Ok(vs) => Ok(JsonValue::Array(vs)),
                        Err(e) => Err(e),
                    }
                } else if op == OpCode::Reduce {
                    let init = if args.len() > 2 {
                        eval_spec(args[2], frames, root, cfg, ops)
                    } else {
                        Ok(JsonValue::Null)
                    };
                    match init {
                        Ok(acc) => reduce_items(args[1], items, 0, acc, frames, root, cfg, ops),
                        Err(e) => Err(e),
                    }
                } else {
                    let want = op != OpCode::All;
                    match any_item(args[1], items, 0, want, frames, root, cfg, ops) {
                        Ok(found) => Ok(JsonValue::Bool(
                            if op == OpCode::All {
                                items.len() > 0 && !found
                            } else if op == OpCode::SomeOf {
                                found
                            } else {
                                !found
                            },
                        )),
                        Err(e) => Err(e),
                    }
                }
            },
        }
    }
}

/// `body` over the elements from `i` on, each with its frame.
pub open spec fn map_items<O: Operator>(
    body: NodeView,
    items: Seq<JsonValue>,
    i: nat,
    frames: Seq<FrameView>,
    root: JsonValue,
    cfg: EvaluationConfig,
    ops: Seq<(Seq<char>, O)>,
) -> Result<Seq<JsonValue>, EvalError>
    decreases body, items.len() + 1 - i,
{
    if i >= items.len() {
        Ok(Seq::empty())
    } else {
        match eval_spec(body, frames.push(item_frame(items, i)), root, cfg, ops) {
            Ok(v) => prepend_ok(seq![v], map_items(body, items, i + 1, frames, root, cfg, ops)),
            Err(e) => Err(e),
        }
    }
}

/// The elements from `i` on for which `body` is true.
pub open spec fn filter_items<O: Operator>(
    body: NodeView,
    items: Seq<JsonValue>,
    i: nat,
    frames: Seq<FrameView>,
    root: JsonValue,
    cfg: EvaluationConfig,
    ops: Seq<(Seq<char>, O)>,
) -> Result<Seq<JsonValue>, EvalError>
    decreases body, items.len() + 1 - i,
{
    if i >= items.len() {
        Ok(Seq::empty())
    } else {
        match eval_spec(body, frames.push(item_frame(items, i)), root, cfg, ops) {
            Ok(v) => if truthy_spec(v, cfg.truthy_evaluator) {
                prepend_ok(seq![items[i as int]], filter_items(body, items, i + 1, frames, root, cfg, ops))
            } else {
                filter_items(body, items, i + 1, frames, root, cfg, ops)
            },
            Err(e) => Err(e),
        }
    }
}

/// Whether, from `i` on, an element's `body` value has truthiness
/// `want`; the walk stops at the first such element.
pub open spec fn any_item<O: Operator>(
    body: NodeView,
    items: Seq<JsonValue>,
    i: nat,
    want: bool,
    frames: Seq<FrameView>,
    root: JsonValue,
    cfg: EvaluationConfig,
    ops: Seq<(Seq<char>, O)>,
) -> Result<bool, EvalError>
    decreases body, items.len() + 1 - i,
{
    if i >= items.len() {
        Ok(false)
    } else {
        match eval_spec(body, frames.push(item_frame(items, i)), root, cfg, ops) {
            Ok(v) => if truthy_spec(v, cfg.truthy_evaluator) == want {
                Ok(true)
            } else {
                any_item(body, items, i + 1, want, frames, root, cfg, ops)
            },
            Err(e) => Err(e),
        }
    }
}

/// The accumulator threaded through the elements from `i` on: `body` is
/// evaluated with a reduce frame of the element and the accumulator.
pub open spec fn reduce_items<O: Operator>(
    body: NodeView,
    items: Seq<JsonValue>,
    i: nat,
    acc: JsonValue,
    frames: Seq<FrameView>,
    root: JsonValue,
    cfg: EvaluationConfig,
    ops: Seq<(Seq<char>, O)>,
) -> Result<JsonValue, EvalError>
    decreases body, items.len() + 1 - i,
{
    if i >= items.len() {
        Ok(acc)
    } else {
        match eval_spec(body, frames.push(FrameView::Reduce(items[i as int], acc)), root, cfg, ops) {
            Ok(v) => reduce_items(body, items, i + 1, v, frames, root, cfg, ops),
            Err(e) => Err(e),
        }
    }
}

/// A path is missing from `data` when it leads nowhere, to `null`, or to
/// the empty string.
pub open spec fn absent(data: JsonValue, segs: Seq<SegmentView>) -> bool {
    match traverse_spec(data, segs) {
        None => true,
        Some(JsonValue::Null) => true,
        Some(JsonValue::Str(t)) => t.len() == 0,
        _ => false,
    }
}

/// The paths a run-time argument of `missing` names: an array's elements,
/// or the value itself.
pub open spec fn dyn_paths(v: JsonValue) -> Seq<JsonValue> {
    match v {
        JsonValue::Array(xs) => xs,
        _ => seq![v],
    }
}

/// The path `x` when it is a string path missing from `data`; nothing
/// otherwise.
pub open spec fn path_missing(data: JsonValue, x: JsonValue) -> Seq<JsonValue> {
    match x {
        JsonValue::Str(p) => if absent(data, parse_path_spec(p)) {
            seq![x]
        } else {
            Seq::empty()
        },
        _ => Seq::empty(),
    }
}

/// The missing paths among `ps` from position `i` on, in order.
pub open spec fn missing_of_paths(data: JsonValue, ps: Seq<JsonValue>, i: nat) -> Seq<JsonValue>
    decreases ps.len() - i,
{
    if i >= ps.len() {
        Seq::empty()
    } else {
        path_missing(data, ps[i as int]) + missing_of_paths(data, ps, i + 1)
    }
}

/// The missing paths among pre-parsed paths from position `i` on.
pub open spec fn static_missing(data: JsonValue, list: Seq<(Seq<char>, Seq<SegmentView>)>, i: nat) -> Seq<JsonValue>
    decreases list.len() - i,
{
    if i >= list.len() {
        Seq::empty()
    } else {
        (if absent(data, list[i as int].1) {
            seq![JsonValue::Str(list[i as int].0)]
        } else {
            Seq::<JsonValue>::empty()
        }) + static_missing(data, list, i + 1)
    }
}

/// `missing` from argument `i` on: the paths, literal or evaluated, that
/// the current data lacks, in order.
pub open spec fn missing_args<O: Operator>(
    args: Seq<MissingArgView>,
    i: nat,
    frames: Seq<FrameView>,
    root: JsonValue,
    cfg: EvaluationConfig,
    ops: Seq<(Seq<char>, O)>,
) -> Result<Seq<JsonValue>, EvalError>
    decreases args, args.len() - i,
{
    if i >= args.len() {
        Ok(Seq::empty())
    } else {
        let data = scope_data(frames, root, 0);
        match args[i as int] {
            MissingArgView::Static(p, segs) => prepend_ok(
                if absent(data, segs) {
                    seq![JsonValue::Str(p)]
                } else {
                    Seq::empty()
                },
                missing_args(args, i + 1, frames, root, cfg, ops),
            ),
            MissingArgView::Dynamic(n) => match eval_spec(n, frames, root, cfg, ops) {
                Ok(v) => prepend_ok(missing_of_paths(data, dyn_paths(v), 0), missing_args(args, i + 1, frames, root, cfg, ops)),
                Err(e) => Err(e),
            },
        }
    }
}

/// The values of `ns` from position `i` on, in order; the first error
/// stops it.
pub open spec fn eval_seq<O: Operator>(
    ns: Seq<NodeView>,
    i: nat,
    frames: Seq<FrameView>,
    root: JsonValue,
    cfg: EvaluationConfig,
    ops: Seq<(Seq<char>, O)>,
) -> Result<Seq<JsonValue>, EvalError>
    decreases ns, ns.len() - i,
{
    if i >= ns.len() {
        Ok(Seq::empty())
    } else {
        match eval_spec(ns[i as int], frames, root, cfg, ops) {
            Ok(v) => prepend_ok(seq![v], eval_seq(ns, i + 1, frames, root, cfg, ops)),
            Err(e) => Err(e),
        }
    }
}

/// The entries of a template from position `i` on, each value evaluated.
pub open spec fn eval_fields<O: Operator>(
    fs: Seq<(Seq<char>, NodeView)>,
    i: nat,
    frames: Seq<FrameView>,
    root: JsonValue,
    cfg: EvaluationConfig,
    ops: Seq<(Seq<char>, O)>,
) -> Result<Seq<(Seq<char>, JsonValue)>, EvalError>
    decreases fs, fs.len() - i,
{
    if i >= fs.len() {
        Ok(Seq::empty())
    } else {
        match eval_spec(fs[i as int].1, frames, root, cfg, ops) {
            Ok(v) => prepend_fields(seq![(fs[i as int].0, v)], eval_fields(fs, i + 1, frames, root, cfg, ops)),
            Err(e) => Err(e),
        }
    }
}

/// `if` from position `i`: the branch after the first true condition, the
/// last odd argument as the `else`, and `null` when nothing is left.
pub open spec fn eval_if<O: Operator>(
    args: Seq<NodeView>,
    i: nat,
    frames: Seq<FrameView>,
    root: JsonValue,
    cfg: EvaluationConfig,
    ops: Seq<(Seq<char>, O)>,
) -> Result<JsonValue, EvalError>
    decreases args, args.len() - i,
{
    if i >= args.len() {
        Ok(JsonValue::Null)
    } else if i + 1 == args.len() {
        eval_spec(args[i as int], frames, root, cfg, ops)
    } else {
        match eval_spec(args[i as int], frames, root, cfg, ops) {
            Ok(c) => if truthy_spec(c, cfg.truthy_evaluator) {
                eval_spec(args[i + 1 as int], frames, root, cfg, ops)
            } else {
                eval_if(args, i + 2, frames, root, cfg, ops)
            },
            Err(e) => Err(e),
        }
    }
}

/// `and` from position `i`: the first false value, else the last value;
/// `null` with no arguments.
pub open spec fn eval_and<O: Operator>(
    args: Seq<NodeView>,
    i: nat,
    frames: Seq<FrameView>,
    root: JsonValue,
    cfg: EvaluationConfig,
    ops: Seq<(Seq<char>, O)>,
) -> Result<JsonValue, EvalError>
    decreases args, args.len() - i,
{
    if i >= args.len() {
        Ok(JsonValue::Null)
    } else {
        match eval_spec(args[i as int], frames, root, cfg, ops) {
            Ok(v) => if i + 1 == args.len() || !truthy_spec(v, cfg.truthy_evaluator) {
                Ok(v)
            } else {
                eval_and(args, i + 1, frames, root, cfg, ops)
            },
            Err(e) => Err(e),
        }
    }
}

/// `or` from position `i`: the first true value, else the last value;
/// `null` with no arguments.
pub open spec fn eval_or<O: Operator>(
    args: Seq<NodeView>,
    i: nat,
    frames: Seq<FrameView>,
    root: JsonValue,
    cfg: EvaluationConfig,
    ops: Seq<(Seq<char>, O)>,
) -> Result<JsonValue, EvalError>
    decreases args, args.len() - i,
{
    if i >= args.len() {
        Ok(JsonValue::Null)
    } else {
        match eval_spec(args[i as int], frames, root, cfg, ops) {
            Ok(v) => if i + 1 == args.len() || truthy_spec(v, cfg.truthy_evaluator) {
                Ok(v)
            } else {
                eval_or(args, i + 1, frames, root, cfg, ops)
            },
            Err(e) => Err(e),
        }
    }
}

/// `??` from position `i`: the first value that is not `null`; `null`
/// when every value is.
pub open spec fn eval_coalesce<O: Operator>(
    args: Seq<NodeView>,
    i: nat,
    frames: Seq<FrameView>,
    root: JsonValue,
    cfg: EvaluationConfig,
    ops: Seq<(Seq<char>, O)>,
) -> Result<JsonValue, EvalError>
    decreases args, args.len() - i,
{
    if i >= args.len() {
        Ok(JsonValue::Null)
    } else {
        match eval_spec(args[i as int], frames, root, cfg, ops) {
            Ok(v) => if v is Null {
                eval_coalesce(args, i + 1, frames, root, cfg, ops)
            } else {
                Ok(v)
            },
            Err(e) => Err(e),
        }
    }
}

/// `try` from position `i`: the first argument that evaluates without an
/// error; the last argument's error when all fail; `null` with none.
pub open spec fn eval_try<O: Operator>(
    args: Seq<NodeView>,
    i: nat,
    frames: Seq<FrameView>,
    root: JsonValue,
    cfg: EvaluationConfig,
    ops: Seq<(Seq<char>, O)>,
) -> Result<JsonValue, EvalError>
    decreases args, args.len() - i,
{
    if i >= args.len() {
        Ok(JsonValue::Null)
    } else {
        match eval_spec(args[i as int], frames, root, cfg, ops) {
            Ok(v) => Ok(v),
            Err(e) => if i + 1 == args.len() {
                Err(e)
            } else {
                eval_try(args, i + 1, frames, root, cfg, ops)
            },
        }
    }
}

/// The segments a run-time `var` path denotes: a dot path, the decimal
/// text of an integer, and no segments for `null`.
pub open spec fn dyn_var_segments(p: JsonValue) -> Option<Seq<SegmentView>> {
    match p {
        JsonValue::Str(t) => Some(parse_path_spec(t)),
        JsonValue::Number(k) => Some(parse_path_spec(int_text(k))),
        JsonValue::Null => Some(Seq::empty()),
        _ => None,
    }
}

/// `var` over evaluated arguments: the value at the path in the current
/// data, else the default (second argument), else `null`.
pub open spec fn var_dyn_spec(data: JsonValue, vs: Seq<JsonValue>) -> JsonValue {
    let found = match dyn_var_segments(first_or_null(vs)) {
        Some(segs) => traverse_spec(data, segs),
        None => None,
    };
    match found {
        Some(v) => v,
        None => if vs.len() > 1 {
            vs[1]
        } else {
            JsonValue::Null
        },
    }
}

/// The field segments of evaluated `exists` arguments, when all are strings.
pub open spec fn exists_fields(vs: Seq<JsonValue>) -> Option<Seq<SegmentView>> {
    if forall|i: int| 0 <= i < vs.len() ==> #[trigger] vs[i] is Str {
        Some(vs.map_values(|v: JsonValue| SegmentView::Field(v->Str_0)))
    } else {
        None
    }
}

/// `exists` over evaluated arguments: the string keys lead somewhere in
/// the current data.
pub open spec fn exists_dyn_spec(data: JsonValue, vs: Seq<JsonValue>) -> bool {
    match exists_fields(vs) {
        Some(segs) => traverse_spec(data, segs) is Some,
        None => false,
    }
}

/// What `throw` raises for an evaluated value: a string becomes
/// `{"type": s}`, anything else is raised as it is.
pub open spec fn thrown_payload(v: JsonValue) -> JsonValue {
    match v {
        JsonValue::Str(t) => JsonValue::Object(seq![("type"@, JsonValue::Str(t))]),
        _ => v,
    }
}

/// `s` ends with `suffix`.
pub open spec fn ends_with_spec(s: Seq<char>, suffix: Seq<char>) -> bool {
    suffix.len() <= s.len() && s.subrange(s.len() - suffix.len(), s.len() as int) == suffix
}

/// The type name of a value.
pub open spec fn value_kind_name(v: JsonValue) -> Seq<char> {
    match v {
        JsonValue::Null => "null"@,
        JsonValue::Bool(_) => "boolean"@,
        JsonValue::Number(_) => "number"@,
        JsonValue::Str(_) => "string"@,
        JsonValue::Array(_) => "array"@,
        JsonValue::Object(_) => "object"@,
    }
}

/// The length of an array (its elements) or a string (its characters);
/// `null` for anything else.
pub open spec fn length_spec(v: JsonValue) -> JsonValue {
    match v {
        JsonValue::Array(xs) => JsonValue::Number(xs.len() as int),
        JsonValue::Str(t) => JsonValue::Number(t.len() as int),
        _ => JsonValue::Null,
    }
}

/// The first value, or `null` when there is none.
pub open spec fn first_or_null(vs: Seq<JsonValue>) -> JsonValue {
    if vs.len() > 0 {
        vs[0]
    } else {
        JsonValue::Null
    }
}

/// Loose equality: a number equals a string that parses to it and a
/// boolean read as 1 or 0; otherwise values must be equal.
pub open spec fn loose_eq_spec(a: JsonValue, b: JsonValue) -> bool {
    match (a, b) {
        (JsonValue::Number(x), JsonValue::Str(s)) => spec_parse_i64(s) == Some(x as i64),
        (JsonValue::Str(s), JsonValue::Number(x)) => spec_parse_i64(s) == Some(x as i64),
        (JsonValue::Number(x), JsonValue::Bool(p)) => x == (if p { 1int } else { 0int }),
        (JsonValue::Bool(p), JsonValue::Number(x)) => x == (if p { 1int } else { 0int }),
        _ => a == b,
    }
}

/// An ordering comparison between integers.
pub open spec fn ordered(op: OpCode, x: int, y: int) -> bool {
    match op {
        OpCode::LessThan => x < y,
        OpCode::LessThanEqual => x <= y,
        OpCode::GreaterThan => x > y,
        _ => x >= y,
    }
}

/// An ordering comparison after numeric coercion; false when either side
/// is not a number.
pub open spec fn compare_spec(op: OpCode, a: JsonValue, b: JsonValue, cfg: EvaluationConfig) -> bool {
    match (coerce_integer_spec(a, cfg.numeric_coercion), coerce_integer_spec(b, cfg.numeric_coercion)) {
        (Some(x), Some(y)) => ordered(op, x as int, y as int),
        _ => false,
    }
}

/// The numeric operands from position `i` on: values that do not coerce
/// are handled as the NaN setting says (error, skipped, zero, or a `null`
/// result, the last as `Ok(None)`).
pub open spec fn operands_spec(vs: Seq<JsonValue>, i: nat, cfg: EvaluationConfig) -> Result<
    Option<Seq<i64>>,
    EvalError,
>
    decreases vs.len() - i,
{
    if i >= vs.len() {
        Ok(Some(Seq::empty()))
    } else {
        match coerce_integer_spec(vs[i as int], cfg.numeric_coercion) {
            Some(x) => prepend_num(seq![x], operands_spec(vs, i + 1, cfg)),
            None => match cfg.arithmetic_nan_handling {
                NanHandling::ThrowError => Err(EvalError::Thrown(nan_value())),
                NanHandling::IgnoreValue => operands_spec(vs, i + 1, cfg),
                NanHandling::CoerceToZero => prepend_num(seq![0i64], operands_spec(vs, i + 1, cfg)),
                NanHandling::ReturnNull => Ok(None),
            },
        }
    }
}

/// `r` with the operands `p` put in front.
pub open spec fn prepend_num(p: Seq<i64>, r: Result<Option<Seq<i64>>, EvalError>) -> Result<
    Option<Seq<i64>>,
    EvalError,
> {
    match r {
        Ok(Some(t)) => Ok(Some(p + t)),
        _ => r,
    }
}

/// The integer fits in 64 bits.
pub open spec fn fits(x: int) -> bool {
    i64::MIN <= x <= i64::MAX
}

/// The running sum from `acc` over `xs` from `i` on, `None` as soon as a
/// partial sum leaves the 64-bit range.
pub open spec fn checked_sum(acc: int, xs: Seq<i64>, i: nat) -> Option<int>
    decreases xs.len() - i,
{
    if i >= xs.len() {
        Some(acc)
    } else if fits(acc + xs[i as int]) {
        checked_sum(acc + xs[i as int], xs, i + 1)
    } else {
        None
    }
}

/// The running product from `acc` over `xs` from `i` on, `None` as soon as
/// a partial product leaves the 64-bit range.
pub open spec fn checked_product(acc: int, xs: Seq<i64>, i: nat) -> Option<int>
    decreases xs.len() - i,
{
    if i >= xs.len() {
        Some(acc)
    } else if fits(acc * xs[i as int]) {
        checked_product(acc * xs[i as int], xs, i + 1)
    } else {
        None
    }
}

/// The least (or, with `max`, the greatest) of `acc` and `xs` from `i` on.
pub open spec fn extreme(max: bool, acc: int, xs: Seq<i64>, i: nat) -> int
    decreases xs.len() - i,
{
    if i >= xs.len() {
        acc
    } else {
        let x = xs[i as int] as int;
        extreme(max, if (max && x > acc) || (!max && x < acc) { x } else { acc }, xs, i + 1)
    }
}

/// An integer result, or the overflow error.
pub open spec fn number_or_overflow(r: Option<int>) -> Result<JsonValue, EvalError> {
    match r {
        Some(x) => Ok(JsonValue::Number(x)),
        None => Err(overflow()),
    }
}

/// The text of `vs` from position `i` on, each value as string operators
/// see it, joined.
pub open spec fn concat_spec(vs: Seq<JsonValue>, i: nat) -> Seq<char>
    decreases vs.len() - i,
{
    if i >= vs.len() {
        Seq::empty()
    } else {
        display_text(vs[i as int]) + concat_spec(vs, i + 1)
    }
}

/// One argument of `merge`: an array's elements, or the value itself.
pub open spec fn flat_items(v: JsonValue) -> Seq<JsonValue> {
    match v {
        JsonValue::Array(xs) => xs,
        _ => seq![v],
    }
}

/// The arguments from position `i` on, arrays flattened one level.
pub open spec fn merge_spec(vs: Seq<JsonValue>, i: nat) -> Seq<JsonValue>
    decreases vs.len() - i,
{
    if i >= vs.len() {
        Seq::empty()
    } else {
        flat_items(vs[i as int]) + merge_spec(vs, i + 1)
    }
}

/// `in`: a string occurs in a string, or a value is an element of an
/// array; false otherwise.
pub open spec fn in_spec(a: JsonValue, b: JsonValue) -> bool {
    match (a, b) {
        (JsonValue::Str(n), JsonValue::Str(h)) => has_text(h, n),
        (_, JsonValue::Array(xs)) => xs.contains(a),
        _ => false,
    }
}

/// `substr` of `t`: from `start` (counted from the end when negative),
/// `len` characters (all to the end when absent; when negative, all but
/// that many at the end), clipped to the text.
pub open spec fn substr_spec(t: Seq<char>, start: int, len: Option<int>) -> Seq<char> {
    let n = t.len() as int;
    let b = if start < 0 {
        if n + start < 0 { 0 } else { n + start }
    } else if start > n {
        n
    } else {
        start
    };
    let e = match len {
        None => n,
        Some(l) => if l >= 0 {
            if b + l > n { n } else { b + l }
        } else if n + l < b {
            b
        } else {
            n + l
        },
    };
    t.subrange(b, e)
}

/// What `str::to_uppercase` gives for a text.
pub uninterp spec fn upper_text(s: Seq<char>) -> Seq<char>;

/// What `str::to_lowercase` gives for a text.
pub uninterp spec fn lower_text(s: Seq<char>) -> Seq<char>;

/// `std`'s `str::to_uppercase`: the contract names the result.
#[verifier::external_body]
fn to_upper(s: &str) -> (r: String)
    ensures
        r@ == upper_text(s@),
{
    s.to_uppercase()
}

/// `std`'s `str::to_lowercase`: the contract names the result.
#[verifier::external_body]
fn to_lower(s: &str) -> (r: String)
    ensures
        r@ == lower_text(s@),
{
    s.to_lowercase()
}

/// A white-space character: Unicode's `White_Space` property.
pub open spec fn is_white(c: char) -> bool {
    let u = c as u32;
    (9 <= u <= 13) || u == 32 || u == 0x85 || u == 0xA0 || u == 0x1680 || (0x2000 <= u <= 0x200A)
        || u == 0x2028 || u == 0x2029 || u == 0x202F || u == 0x205F || u == 0x3000
}

/// The first position at or after `i` that is not white space.
pub open spec fn lead_end(s: Seq<char>, i: nat) -> nat
    decreases s.len() - i,
{
    if i < s.len() && is_white(s[i as int]) {
        lead_end(s, i + 1)
    } else {
        i
    }
}

/// The end of the text up to `j` with trailing white space cut.
pub open spec fn trail_start(s: Seq<char>, j: nat) -> nat
    decreases j,
{
    if j > 0 && j <= s.len() && is_white(s[j - 1]) {
        trail_start(s, (j - 1) as nat)
    } else {
        j
    }
}

/// The text with leading and trailing white space removed.
pub open spec fn trim_spec(s: Seq<char>) -> Seq<char> {
    let b = lead_end(s, 0);
    let e = trail_start(s, s.len());
    if e <= b {
        Seq::empty()
    } else {
        s.subrange(b as int, e as int)
    }
}

/// The first position at or after `i` where `sep` occurs in `s`.
pub open spec fn first_occ(s: Seq<char>, sep: Seq<char>, i: nat) -> Option<nat>
    decreases s.len() + 1 - i,
{
    if i > s.len() {
        None
    } else if occurs_at(s, sep, i as int) {
        Some(i)
    } else {
        first_occ(s, sep, i + 1)
    }
}

/// The pieces of `s` from `start` on, cut at the occurrences of a
/// non-empty `sep`, taken from the left without overlap.
pub open spec fn split_from(s: Seq<char>, sep: Seq<char>, start: nat) -> Seq<Seq<char>>
    decreases s.len() + 1 - start,
{
    if sep.len() == 0 || start > s.len() {
        Seq::empty()
    } else {
        match first_occ(s, sep, start) {
            Some(k) => if k + sep.len() > start && k + sep.len() <= s.len() {
                seq![s.subrange(start as int, k as int)] + split_from(s, sep, k + sep.len())
            } else {
                seq![s.subrange(start as int, s.len() as int)]
            },
            None => seq![s.subrange(start as int, s.len() as int)],
        }
    }
}

/// The pieces `split` cuts a text into: at each occurrence of a
/// non-empty separator, from the left; with an empty separator, an empty
/// piece, each character, and an empty piece.
pub open spec fn split_spec(s: Seq<char>, sep: Seq<char>) -> Seq<Seq<char>> {
    if sep.len() == 0 {
        seq![Seq::<char>::empty()] + s.map_values(|c: char| seq![c]) + seq![Seq::<char>::empty()]
    } else {
        split_from(s, sep, 0)
    }
}

/// The first occurrence search: no occurrence in `[i, k)` and one at `k`
/// means `k` is the first from `i`.
proof fn lemma_first_occ(s: Seq<char>, sep: Seq<char>, i: nat, k: nat)
    requires
        i <= k <= s.len(),
        forall|j: int| i <= j < k ==> !#[trigger] occurs_at(s, sep, j),
    ensures
        occurs_at(s, sep, k as int) ==> first_occ(s, sep, i) == Some(k),
        (forall|j: int| k <= j <= s.len() ==> !#[trigger] occurs_at(s, sep, j)) ==> first_occ(s, sep, i) is None,
    decreases s.len() + 1 - i,
{
    if i < k {
        lemma_first_occ(s, sep, i + 1, k);
        assert(!occurs_at(s, sep, i as int));
    } else {
        if forall|j: int| k <= j <= s.len() ==> !#[trigger] occurs_at(s, sep, j) {
            lemma_first_occ_none(s, sep, i);
        }
    }
}

/// No occurrence from `i` on means none is found.
proof fn lemma_first_occ_none(s: Seq<char>, sep: Seq<char>, i: nat)
    requires
        forall|j: int| i <= j <= s.len() ==> !#[trigger] occurs_at(s, sep, j),
    ensures
        first_occ(s, sep, i) is None,
    decreases s.len() + 1 - i,
{
    if i <= s.len() {
        assert(!occurs_at(s, sep, i as int));
        lemma_first_occ_none(s, sep, i + 1);
    }
}

/// The text with leading and trailing white space removed.
fn trim_chars(t: &str) -> (r: String)
    ensures
        r@ == trim_spec(t@),
{
    let n = t.unicode_len();
    let mut b: usize = 0;
    while b < n && is_white_char(t.get_char(b))
        invariant
            b <= n,
            n == t@.len(),
            lead_end(t@, 0) == lead_end(t@, b as nat),
        decreases n - b,
    {
        b = b + 1;
    }
    let mut e: usize = n;
    while e > 0 && is_white_char(t.get_char(e - 1))
        invariant
            e <= n,
            n == t@.len(),
            trail_start(t@, n as nat) == trail_start(t@, e as nat),
        decreases e,
    {
        e = e - 1;
    }
    if e <= b {
        String::new()
    } else {
        String::from_str(t.substring_char(b, e))
    }
}

/// A white-space character.
fn is_white_char(c: char) -> (r: bool)
    ensures
        r == is_white(c),
{
    let u = c as u32;
    (9 <= u && u <= 13) || u == 32 || u == 0x85 || u == 0xA0 || u == 0x1680 || (0x2000 <= u && u <= 0x200A)
        || u == 0x2028 || u == 0x2029 || u == 0x202F || u == 0x205F || u == 0x3000
}

/// `sep` occurs in `t` at `k`.
fn occurs_at_pos(t: &str, n: usize, sep: &str, m: usize, k: usize) -> (r: bool)
    requires
        n == t@.len(),
        m == sep@.len(),
    ensures
        r == occurs_at(t@, sep@, k as int),
{
    if k > n || m > n - k {
        return false;
    }
    key_eq(t.substring_char(k, k + m), sep)
}

/// The pieces `split` cuts `t` into at `sep`.
fn split_chars(t: &str, sep: &str) -> (r: Vec<String>)
    ensures
        r@.map_values(|p: String| p@) == split_spec(t@, sep@),
{
    let n = t.unicode_len();
    let m = sep.unicode_len();
    let mut out: Vec<String> = Vec::new();
    if m == 0 {
        out.push(String::new());
        let mut i: usize = 0;
        while i < n
            invariant
                i <= n,
                n == t@.len(),
                out@.map_values(|p: String| p@) == seq![Seq::<char>::empty()] + t@.take(i as int).map_values(
                    |c: char| seq![c],
                ),
            decreases n - i,
        {
            let ghost before = out@.map_values(|p: String| p@);
            let piece = String::from_str(t.substring_char(i, i + 1));
            assert(piece@ =~= seq![t@[i as int]]);
            out.push(piece);
            assert(out@.map_values(|p: String| p@) =~= before.push(seq![t@[i as int]]));
            assert(t@.take(i as int + 1).map_values(|c: char| seq![c]) =~= t@.take(i as int).map_values(
                |c: char| seq![c],
            ).push(seq![t@[i as int]]));
            i = i + 1;
        }
        let ghost before = out@.map_values(|p: String| p@);
        out.push(String::new());
        assert(t@.take(n as int) =~= t@);
        assert(out@.map_values(|p: String| p@) =~= before + seq![Seq::<char>::empty()]);
        return out;
    }
    let mut start: usize = 0;
    let mut done = false;
    while !done
        invariant
            start <= n,
            n == t@.len(),
            m == sep@.len(),
            m > 0,
            !done ==> split_spec(t@, sep@) == out@.map_values(|p: String| p@) + split_from(t@, sep@, start as nat),
            done ==> split_spec(t@, sep@) == out@.map_values(|p: String| p@),
        decreases (if done { 0 } else { n + 1 - start }),
    {
        let mut k: usize = start;
        while k < n && !occurs_at_pos(t, n, sep, m, k)
            invariant
                start <= k <= n,
                n == t@.len(),
                m == sep@.len(),
                forall|j: int| start <= j < k ==> !#[trigger] occurs_at(t@, sep@, j),
            decreases n - k,
        {
            k = k + 1;
        }
        let ghost before = out@.map_values(|p: String| p@);
        if k < n {
            proof {
                lemma_first_occ(t@, sep@, start as nat, k as nat);
            }
            let piece = String::from_str(t.substring_char(start, k));
            out.push(piece);
            assert(out@.map_values(|p: String| p@) =~= before.push(t@.subrange(start as int, k as int)));
            assert(before + (seq![t@.subrange(start as int, k as int)] + split_from(t@, sep@, (k + m) as nat))
                =~= out@.map_values(|p: String| p@) + split_from(t@, sep@, (k + m) as nat));
            start = k + m;
        } else {
            proof {
                assert(!occurs_at(t@, sep@, n as int));
                lemma_first_occ_none(t@, sep@, start as nat);
            }
            let piece = String::from_str(t.substring_char(start, n));
            out.push(piece);
            assert(out@.map_values(|p: String| p@) =~= before.push(t@.subrange(start as int, n as int)));
            assert(before + seq![t@.subrange(start as int, n as int)] =~= out@.map_values(|p: String| p@));
            done = true;
        }
    }
    out
}

/// A slice bound: counted from the end when negative, clipped to `0..=n`.
pub open spec fn clip_bound(x: int, n: int) -> int {
    if x < 0 {
        if n + x < 0 { 0 } else { n + x }
    } else if x > n {
        n
    } else {
        x
    }
}

/// The start and end `slice` takes over `n` items: start from the second
/// argument (0 when absent), end from the third (`n` when absent), both
/// clipped, and the end never before the start.
pub open spec fn slice_range(n: int, start: Option<int>, end: Option<int>) -> (int, int) {
    let b = match start {
        Some(x) => clip_bound(x, n),
        None => 0,
    };
    let e0 = match end {
        Some(x) => clip_bound(x, n),
        None => n,
    };
    (b, if e0 < b { b } else { e0 })
}

/// `slice` of an array (its elements) or a string (its characters);
/// `null` for anything else.
pub open spec fn slice_spec(v: JsonValue, start: Option<int>, end: Option<int>) -> JsonValue {
    match v {
        JsonValue::Array(xs) => {
            let (b, e) = slice_range(xs.len() as int, start, end);
            JsonValue::Array(xs.subrange(b, e))
        },
        JsonValue::Str(t) => {
            let (b, e) = slice_range(t.len() as int, start, end);
            JsonValue::Str(t.subrange(b, e))
        },
        _ => JsonValue::Null,
    }
}

/// The integer a `substr` bound coerces to, if any.
pub open spec fn bound_of(vs: Seq<JsonValue>, i: int, cfg: EvaluationConfig) -> Option<int> {
    if i < vs.len() {
        match coerce_integer_spec(vs[i], cfg.numeric_coercion) {
            Some(x) => Some(x as int),
            None => None,
        }
    } else {
        None
    }
}

/// `switch`: the first argument is the value, the second a list of
/// `[case, result]` pairs; the result of the first case equal to the value,
/// else the third argument (evaluated only then), else `null`. Fewer than
/// two arguments is an error.
pub open spec fn eval_switch<O: Operator>(
    args: Seq<NodeView>,
    frames: Seq<FrameView>,
    root: JsonValue,
    cfg: EvaluationConfig,
    ops: Seq<(Seq<char>, O)>,
) -> Result<JsonValue, EvalError>
    decreases args, 0nat,
{
    if args.len() < 2 {
        Err(bad_args())
    } else {
        match eval_spec(args[0], frames, root, cfg, ops) {
            Err(e) => Err(e),
            Ok(d) => match eval_spec(args[1], frames, root, cfg, ops) {
                Err(e) => Err(e),
                Ok(c) => match switch_pick(d, iter_items(c), 0) {
                    Some(v) => Ok(v),
                    None => if args.len() > 2 {
                        eval_spec(args[2], frames, root, cfg, ops)
                    } else {
                        Ok(JsonValue::Null)
                    },
                },
            },
        }
    }
}

/// The result paired with the first case, from position `i` on, that
/// equals `d`; entries that are not pairs are passed over.
pub open spec fn switch_pick(d: JsonValue, cases: Seq<JsonValue>, i: nat) -> Option<JsonValue>
    decreases cases.len() - i,
{
    if i >= cases.len() {
        None
    } else {
        match cases[i as int] {
            JsonValue::Array(p) => if p.len() >= 2 && p[0] == d {
                Some(p[1])
            } else {
                switch_pick(d, cases, i + 1)
            },
            _ => switch_pick(d, cases, i + 1),
        }
    }
}

/// One run-time `val` path part: a string is a key (or key-or-index), a
/// non-negative integer an index.
pub open spec fn val_part(v: JsonValue) -> Option<SegmentView> {
    match v {
        JsonValue::Str(t) => Some(segment_of(t)),
        JsonValue::Number(n) => if n >= 0 {
            Some(SegmentView::Index(n as usize))
        } else {
            None
        },
        _ => None,
    }
}

/// The segments of run-time `val` parts from position `i` on, when every
/// part is one.
pub open spec fn val_parts(vs: Seq<JsonValue>, i: nat) -> Option<Seq<SegmentView>>
    decreases vs.len() - i,
{
    if i >= vs.len() {
        Some(Seq::empty())
    } else {
        match (val_part(vs[i as int]), val_parts(vs, i + 1)) {
            (Some(s), Some(r)) => Some(seq![s] + r),
            _ => None,
        }
    }
}

/// The scope level a leading `[level]` argument of `val` gives.
pub open spec fn val_level(v: JsonValue) -> Option<u32> {
    match v {
        JsonValue::Array(items) => if items.len() > 0 {
            match items[0] {
                JsonValue::Number(l) => Some(level_u32(l)),
                _ => None,
            }
        } else {
            None
        },
        _ => None,
    }
}

/// `val` over evaluated arguments: an optional leading `[level]`, then
/// path parts walked from that scope's data; `null` when the walk misses
/// or a part is neither a string nor a non-negative integer.
pub open spec fn val_dyn_spec(frames: Seq<FrameView>, root: JsonValue, vs: Seq<JsonValue>) -> JsonValue {
    let lv = if vs.len() > 0 { val_level(vs[0]) } else { None };
    let level: u32 = match lv {
        Some(l) => l,
        None => 0,
    };
    let from: nat = if lv is Some { 1 } else { 0 };
    match val_parts(vs, from) {
        Some(segs) => match traverse_spec(scope_data(frames, root, level as nat), segs) {
            Some(v) => v,
            None => JsonValue::Null,
        },
        None => JsonValue::Null,
    }
}

/// The absolute value of an integer.
pub open spec fn magnitude(x: int) -> int {
    if x < 0 { -x } else { x }
}

/// Lexicographic order of two texts by character code.
fn text_le(a: &str, b: &str) -> (r: bool)
    ensures
        r == lex_le(a@, b@, 0),
{
    let n = a.unicode_len();
    let m = b.unicode_len();
    let mut i: usize = 0;
    while i < n
        invariant
            i <= n,
            n == a@.len(),
            m == b@.len(),
            lex_le(a@, b@, 0) == lex_le(a@, b@, i as nat),
            i <= m,
        decreases n - i,
    {
        if i >= m {
            return false;
        }
        let ca = a.get_char(i);
        let cb = b.get_char(i);
        if ca != cb {
            return ca < cb;
        }
        i = i + 1;
    }
    true
}

/// The order `sort` uses.
fn value_le(a: &DataValue, b: &DataValue) -> (r: bool)
    ensures
        r == key_le(a@, b@),
{
    match (a, b) {
        (DataValue::Number(x), DataValue::Number(y)) => *x <= *y,
        (DataValue::String(x), DataValue::String(y)) => text_le(x.as_str(), y.as_str()),
        _ => true,
    }
}

/// All elements are numbers, or all are strings.
fn all_numbers_or_strings(xs: &Vec<DataValue>) -> (r: bool)
    ensures
        r == sortable(values_view(xs@)),
{
    let ghost xv = values_view(xs@);
    proof {
        lemma_values_view(xs@);
    }
    let mut nums = true;
    let mut strs = true;
    let mut i: usize = 0;
    while i < xs.len()
        invariant
            i <= xs@.len(),
            xv == values_view(xs@),
            xv.len() == xs@.len(),
            nums == (forall|k: int| 0 <= k < i ==> #[trigger] xv[k] is Number),
            strs == (forall|k: int| 0 <= k < i ==> #[trigger] xv[k] is Str),
        decreases xs@.len() - i,
    {
        proof {
            lemma_values_view(xs@);
        }
        assert(xv[i as int] == xs@[i as int]@);
        match &xs[i] {
            DataValue::Number(_) => {
                assert(xv[i as int] is Number && !(xv[i as int] is Str));
                strs = false;
            },
            DataValue::String(_) => {
                assert(xv[i as int] is Str && !(xv[i as int] is Number));
                nums = false;
            },
            _ => {
                assert(!(xv[i as int] is Str) && !(xv[i as int] is Number));
                nums = false;
                strs = false;
            },
        }
        i = i + 1;
    }
    nums || strs
}

/// The elements in ascending order, by insertion.
fn sort_values(xs: &Vec<DataValue>) -> (r: Vec<DataValue>)
    ensures
        values_view(r@) == sort_spec(values_view(xs@)),
{
    let ghost xv = values_view(xs@);
    let mut out: Vec<DataValue> = Vec::new();
    let mut i: usize = 0;
    assert(xv.take(0) =~= Seq::<JsonValue>::empty());
    assert(values_view(out@) =~= Seq::<JsonValue>::empty());
    while i < xs.len()
        invariant
            i <= xs@.len(),
            xv == values_view(xs@),
            values_view(out@) == sort_spec(xv.take(i as int)),
        decreases xs@.len() - i,
    {
        proof {
            lemma_values_view(xs@);
        }
        let x = xs[i].copy();
        let ghost ov = values_view(out@);
        let mut j: usize = 0;
        while j < out.len() && !value_le(&x, &out[j])
            invariant
                j <= out@.len(),
                ov == values_view(out@),
                forall|k: int| 0 <= k < j ==> !key_le(x@, #[trigger] ov[k]),
            decreases out@.len() - j,
        {
            proof {
                lemma_values_view(out@);
            }
            j = j + 1;
        }
        proof {
            lemma_values_view(out@);
            lemma_insert_sorted_at(ov, x@, j as int);
            assert(xv.take(i as int + 1).drop_last() =~= xv.take(i as int));
            assert(xv.take(i as int + 1).last() == x@);
        }
        let ghost old_out = out@;
        out.insert(j, x);
        proof {
            lemma_values_view(out@);
            lemma_values_view(old_out);
            assert(values_view(out@) =~= ov.take(j as int) + seq![x@] + ov.skip(j as int));
        }
        i = i + 1;
    }
    assert(xv.take(xs@.len() as int) =~= xv);
    out
}

/// `/` over its numeric operands. Division by zero follows the setting:
/// an error, the largest or smallest integer by the dividend's sign
/// (`null` for zero), or `null`. A quotient that is not an integer is an
/// error, as the values hold integers only.
pub open spec fn divide_spec(xs: Seq<i64>, cfg: EvaluationConfig) -> Result<JsonValue, EvalError> {
    if xs.len() != 2 {
        Err(bad_args())
    } else if xs[1] == 0 {
        if cfg.division_by_zero == DivisionByZeroHandling::ThrowError {
            Err(EvalError::ArithmeticError("Division by zero"@))
        } else if cfg.division_by_zero == DivisionByZeroHandling::ReturnBounds {
            Ok(
                if xs[0] > 0 {
                    JsonValue::Number(i64::MAX as int)
                } else if xs[0] < 0 {
                    JsonValue::Number(i64::MIN as int)
                } else {
                    JsonValue::Null
                },
            )
        } else {
            Ok(JsonValue::Null)
        }
    } else {
        let ma = magnitude(xs[0] as int);
        let mb = magnitude(xs[1] as int);
        if ma % mb != 0 {
            Err(EvalError::ArithmeticError("Non-integer result"@))
        } else {
            let q = if (xs[0] < 0) == (xs[1] < 0) { ma / mb } else { -(ma / mb) };
            number_or_overflow(if fits(q) { Some(q) } else { None })
        }
    }
}

/// Lexicographic order of texts by character code, from position `i` on.
pub open spec fn lex_le(a: Seq<char>, b: Seq<char>, i: nat) -> bool
    decreases a.len() - i,
{
    if i >= a.len() {
        true
    } else if i >= b.len() {
        false
    } else if a[i as int] != b[i as int] {
        a[i as int] < b[i as int]
    } else {
        lex_le(a, b, i + 1)
    }
}

/// The order `sort` uses: numbers by value, strings lexicographically.
pub open spec fn key_le(a: JsonValue, b: JsonValue) -> bool {
    match (a, b) {
        (JsonValue::Number(x), JsonValue::Number(y)) => x <= y,
        (JsonValue::Str(x), JsonValue::Str(y)) => lex_le(x, y, 0),
        _ => true,
    }
}

/// All elements are numbers, or all are strings.
pub open spec fn sortable(xs: Seq<JsonValue>) -> bool {
    (forall|i: int| 0 <= i < xs.len() ==> #[trigger] xs[i] is Number)
        || (forall|i: int| 0 <= i < xs.len() ==> #[trigger] xs[i] is Str)
}

/// `x` put into `s` before the first element it is not above.
pub open spec fn insert_sorted(s: Seq<JsonValue>, x: JsonValue) -> Seq<JsonValue>
    decreases s.len(),
{
    if s.len() == 0 {
        seq![x]
    } else if key_le(x, s[0]) {
        seq![x] + s
    } else {
        seq![s[0]] + insert_sorted(s.skip(1), x)
    }
}

/// The elements in ascending order, equal elements in their original
/// order.
pub open spec fn sort_spec(xs: Seq<JsonValue>) -> Seq<JsonValue>
    decreases xs.len(),
{
    if xs.len() == 0 {
        Seq::empty()
    } else {
        insert_sorted(sort_spec(xs.drop_last()), xs.last())
    }
}

/// `insert_sorted` puts `x` at the first position `j` whose element it is
/// not above.
proof fn lemma_insert_sorted_at(s: Seq<JsonValue>, x: JsonValue, j: int)
    requires
        0 <= j <= s.len(),
        forall|k: int| 0 <= k < j ==> !key_le(x, #[trigger] s[k]),
        j < s.len() ==> key_le(x, s[j]),
    ensures
        insert_sorted(s, x) == s.take(j) + seq![x] + s.skip(j),
    decreases s.len(),
{
    if s.len() == 0 {
        assert(s.take(j) + seq![x] + s.skip(j) =~= seq![x]);
    } else if key_le(x, s[0]) {
        if j > 0 {
            assert(!key_le(x, s[0]));
        }
        assert(s.take(0) + seq![x] + s.skip(0) =~= seq![x] + s);
    } else {
        assert(j > 0);
        let t = s.skip(1);
        assert forall|k: int| 0 <= k < j - 1 implies !key_le(x, #[trigger] t[k]) by {
            assert(t[k] == s[k + 1]);
        }
        if j - 1 < t.len() {
            assert(t[j - 1] == s[j]);
        }
        lemma_insert_sorted_at(t, x, j - 1);
        assert(seq![s[0]] + (t.take(j - 1) + seq![x] + t.skip(j - 1)) =~= s.take(j) + seq![x] + s.skip(j));
    }
}

/// The remainder of truncating division: the sign follows `a`.
pub open spec fn trunc_rem(a: int, b: int) -> int {
    let mb = if b < 0 { -b } else { b };
    if a >= 0 {
        a % mb
    } else {
        -((-a) % mb)
    }
}

/// `%` over its numeric operands: a remainder by zero is an error or
/// `null`, as the division-by-zero setting says (an error only when it is
/// set to raise one).
pub open spec fn modulo_spec(xs: Seq<i64>, cfg: EvaluationConfig) -> Result<JsonValue, EvalError> {
    if xs.len() != 2 {
        Err(bad_args())
    } else if xs[1] == 0 {
        if cfg.division_by_zero == DivisionByZeroHandling::ThrowError {
            Err(EvalError::ArithmeticError("Division by zero"@))
        } else {
            Ok(JsonValue::Null)
        }
    } else {
        Ok(JsonValue::Number(trunc_rem(xs[0] as int, xs[1] as int)))
    }
}

/// An arithmetic operator over its numeric operands.
pub open spec fn arith_spec(op: OpCode, xs: Seq<i64>) -> Result<JsonValue, EvalError> {
    match op {
        OpCode::Add => number_or_overflow(checked_sum(0, xs, 0)),
        OpCode::Multiply => number_or_overflow(checked_product(1, xs, 0)),
        OpCode::Ceil | OpCode::Floor => if xs.len() == 1 {
            Ok(JsonValue::Number(xs[0] as int))
        } else {
            Err(bad_args())
        },
        OpCode::Abs => if xs.len() == 1 {
            number_or_overflow(
                if xs[0] >= 0 {
                    Some(xs[0] as int)
                } else if fits(-(xs[0] as int)) {
                    Some(-(xs[0] as int))
                } else {
                    None
                },
            )
        } else {
            Err(bad_args())
        },
        OpCode::Subtract => if xs.len() == 1 {
            number_or_overflow(if fits(-(xs[0] as int)) { Some(-(xs[0] as int)) } else { None })
        } else if xs.len() == 2 {
            number_or_overflow(if fits(xs[0] - xs[1]) { Some(xs[0] - xs[1]) } else { None })
        } else {
            Err(bad_args())
        },
        _ => if xs.len() == 0 {
            Ok(JsonValue::Null)
        } else {
            Ok(JsonValue::Number(extreme(op == OpCode::Max, xs[0] as int, xs, 1)))
        },
    }
}

/// A strict operator applied to its evaluated arguments.
pub open spec fn apply_spec(op: OpCode, vs: Seq<JsonValue>, cfg: EvaluationConfig) -> Result<JsonValue, EvalError> {
    match op {
        OpCode::Not => Ok(JsonValue::Bool(!truthy_spec(first_or_null(vs), cfg.truthy_evaluator))),
        OpCode::DoubleNot => Ok(JsonValue::Bool(truthy_spec(first_or_null(vs), cfg.truthy_evaluator))),
        OpCode::Cat => Ok(JsonValue::Str(concat_spec(vs, 0))),
        OpCode::Merge => Ok(JsonValue::Array(merge_spec(vs, 0))),
        OpCode::Upper => Ok(JsonValue::Str(upper_text(display_text(first_or_null(vs))))),
        OpCode::Lower => Ok(JsonValue::Str(lower_text(display_text(first_or_null(vs))))),
        OpCode::Trim => Ok(JsonValue::Str(trim_spec(display_text(first_or_null(vs))))),
        OpCode::Split => if vs.len() < 2 {
            Err(bad_args())
        } else {
            Ok(JsonValue::Array(
                split_spec(display_text(vs[0]), display_text(vs[1])).map_values(|p: Seq<char>| JsonValue::Str(p)),
            ))
        },
        OpCode::Slice => Ok(slice_spec(first_or_null(vs), bound_of(vs, 1, cfg), bound_of(vs, 2, cfg))),
        OpCode::Substr => Ok(JsonValue::Str(
            substr_spec(
                display_text(first_or_null(vs)),
                match bound_of(vs, 1, cfg) {
                    Some(b) => b,
                    None => 0,
                },
                bound_of(vs, 2, cfg),
            ),
        )),
        OpCode::Throw => Err(EvalError::Thrown(thrown_payload(first_or_null(vs)))),
        OpCode::StartsWith | OpCode::EndsWith => if vs.len() < 2 {
            Err(bad_args())
        } else {
            Ok(JsonValue::Bool(
                match (vs[0], vs[1]) {
                    (JsonValue::Str(a), JsonValue::Str(b)) => if op == OpCode::StartsWith {
                        b.is_prefix_of(a)
                    } else {
                        ends_with_spec(a, b)
                    },
                    _ => false,
                },
            ))
        },
        OpCode::Type => Ok(JsonValue::Str(value_kind_name(first_or_null(vs)))),
        OpCode::Length => if length_spec(first_or_null(vs)) matches JsonValue::Number(k) && !fits(k) {
            Err(overflow())
        } else {
            Ok(length_spec(first_or_null(vs)))
        },
        OpCode::In => if vs.len() < 2 {
            Err(bad_args())
        } else {
            Ok(JsonValue::Bool(in_spec(vs[0], vs[1])))
        },
        OpCode::StrictEquals | OpCode::StrictNotEquals | OpCode::Equals | OpCode::NotEquals => if vs.len() < 2 {
            Err(bad_args())
        } else {
            let same = if op == OpCode::StrictEquals || op == OpCode::StrictNotEquals {
                vs[0] == vs[1]
            } else {
                loose_eq_spec(vs[0], vs[1])
            };
            Ok(JsonValue::Bool(if op == OpCode::StrictEquals || op == OpCode::Equals { same } else { !same }))
        },
        OpCode::LessThan | OpCode::LessThanEqual | OpCode::GreaterThan | OpCode::GreaterThanEqual => if vs.len() < 2 {
            Err(bad_args())
        } else if vs.len() == 3 && (op == OpCode::LessThan || op == OpCode::LessThanEqual) {
            Ok(JsonValue::Bool(compare_spec(op, vs[0], vs[1], cfg) && compare_spec(op, vs[1], vs[2], cfg)))
        } else {
            Ok(JsonValue::Bool(compare_spec(op, vs[0], vs[1], cfg)))
        },
        OpCode::Preserve => Ok(if vs.len() == 1 { vs[0] } else { JsonValue::Array(vs) }),
        OpCode::Sort => match first_or_null(vs) {
            JsonValue::Array(xs) => if sortable(xs) {
                Ok(JsonValue::Array(sort_spec(xs)))
            } else {
                Err(bad_args())
            },
            _ => Err(bad_args()),
        },
        OpCode::Divide => match operands_spec(vs, 0, cfg) {
            Ok(Some(xs)) => divide_spec(xs, cfg),
            Ok(None) => Ok(JsonValue::Null),
            Err(e) => Err(e),
        },
        OpCode::Modulo => match operands_spec(vs, 0, cfg) {
            Ok(Some(xs)) => modulo_spec(xs, cfg),
            Ok(None) => Ok(JsonValue::Null),
            Err(e) => Err(e),
        },
        _ => match operands_spec(vs, 0, cfg) {
            Ok(Some(xs)) => arith_spec(op, xs),
            Ok(None) => Ok(JsonValue::Null),
            Err(e) => Err(e),
        },
    }
}


/// The model of an optional owned value.
pub open spec fn opt_data_view(r: Option<DataValue>) -> Option<JsonValue> {
    match r {
        Some(x) => Some(x@),
        None => None,
    }
}

/// Walks `segments` from position `start` on, starting at `av`.
fn walk_from<'b>(av: &'b DataValue, segments: &Vec<PathSegment>, start: usize) -> (r: Option<&'b DataValue>)
    requires
        start <= segments@.len(),
    ensures
        opt_view(r) == traverse_spec(av@, segments_view(segments@).skip(start as int)),
{
    let ghost segs = segments_view(segments@);
    let mut cur: &'b DataValue = av;
    let mut i: usize = start;
    while i < segments.len()
        invariant
            start <= i <= segments@.len(),
            segs == segments_view(segments@),
            traverse_spec(av@, segs.skip(start as int)) == traverse_spec(cur@, segs.skip(i as int)),
        decreases segments@.len() - i,
    {
        proof {
            assert(segs.skip(i as int)[0] == segments@[i as int]@);
            assert(segs.skip(i as int).skip(1) =~= segs.skip(i as int + 1));
        }
        match step_segment(cur, &segments[i]) {
            Some(next) => {
                cur = next;
            },
            None => {
                return None;
            },
        }
        i = i + 1;
    }
    proof {
        assert(segs.skip(i as int) =~= Seq::<SegmentView>::empty());
    }
    Some(cur)
}

/// The data `level` levels above the current context.
fn scope_data_ref<'a>(ctx: &DataContextStack<'a>, level: u32) -> (r: &'a DataValue)
    ensures
        r@ == scope_data(frames_view(ctx.frames()), ctx.root()@, level as nat),
{
    match ctx.frame_at_level(level) {
        Some(f) => f.data(),
        None => ctx.root_input(),
    }
}

/// What a compiled variable access finds.
fn lookup_var<'a>(
    ctx: &DataContextStack<'a>,
    level: u32,
    segments: &Vec<PathSegment>,
    rh: ReduceHint,
    mh: MetadataHint,
) -> (r: Option<DataValue>)
    ensures
        opt_data_view(r) == var_lookup(frames_view(ctx.frames()), ctx.root()@, level, segments_view(segments@), rh, mh),
{
    match mh {
        MetadataHint::Index => {
            let v = match ctx.frame_at_level(level) {
                Some(f) => match f.get_index() {
                    Some(i) => if i as u64 <= i64::MAX as u64 {
                        DataValue::Number(i as i64)
                    } else {
                        DataValue::Null
                    },
                    None => DataValue::Null,
                },
                None => DataValue::Null,
            };
            Some(v)
        },
        MetadataHint::Key => {
            let v = match ctx.frame_at_level(level) {
                Some(ContextFrame::Keyed { key, .. }) => DataValue::String(key.to_owned()),
                _ => DataValue::Null,
            };
            Some(v)
        },
        MetadataHint::NoHint => {
            let start: usize = if segments.len() > 0 { 1 } else { 0 };
            proof {
                if segments@.len() == 0 {
                    assert(segments_view(segments@).skip(0) =~= segments_view(segments@));
                }
            }
            let top = ctx.frame_at_level(0);
            let found = match (rh, top) {
                (ReduceHint::Current, Some(ContextFrame::Reduce { current, .. })) => Some(current),
                (ReduceHint::Accumulator, Some(ContextFrame::Reduce { accumulator, .. })) => Some(accumulator),
                (ReduceHint::CurrentPath, Some(ContextFrame::Reduce { current, .. })) => walk_from(
                    current,
                    segments,
                    start,
                ),
                (ReduceHint::AccumulatorPath, Some(ContextFrame::Reduce { accumulator, .. })) => walk_from(
                    accumulator,
                    segments,
                    start,
                ),
                _ => {
                    proof {
                        assert(segments_view(segments@).skip(0) =~= segments_view(segments@));
                    }
                    walk_from(scope_data_ref(ctx, level), segments, 0)
                },
            };
            match found {
                Some(v) => Some(v.copy()),
                None => None,
            }
        },
    }
}

/// The operator belongs to the strict set.
fn strict_op(op: OpCode) -> (r: bool)
    ensures
        r == is_strict_op(op),
{
    match op {
        OpCode::Not | OpCode::DoubleNot | OpCode::Equals | OpCode::NotEquals | OpCode::StrictEquals
        | OpCode::StrictNotEquals | OpCode::LessThan | OpCode::LessThanEqual | OpCode::GreaterThan
        | OpCode::GreaterThanEqual | OpCode::Add | OpCode::Subtract | OpCode::Multiply | OpCode::Min
        | OpCode::Max | OpCode::Cat | OpCode::Merge | OpCode::In | OpCode::Type | OpCode::Length
        | OpCode::Upper | OpCode::Lower | OpCode::Trim | OpCode::Split | OpCode::Slice
        | OpCode::Substr | OpCode::Modulo | OpCode::Divide | OpCode::Preserve | OpCode::Sort | OpCode::Abs | OpCode::Ceil | OpCode::Floor | OpCode::Throw | OpCode::StartsWith | OpCode::EndsWith => true,
        _ => false,
    }
}

/// The `InvalidOperator` error naming a built-in operator.
fn unsupported(op: OpCode) -> (r: Error)
    ensures
        error_view(r.kind) == EvalError::InvalidOperator(opcode_name(op)),
{
    Error::invalid_operator(String::from_str(op.as_str()))
}

/// Evaluates `node` in the context `ctx` under the settings `cfg`.
pub fn eval_node<'a, O: Operator>(node: &CompiledNode, ctx: &DataContextStack<'a>, cfg: &EvaluationConfig, ops: &Vec<(String, O)>) -> (r: Result<
    DataValue,
    Error,
>)
    ensures
        result_view(r) == eval_spec(node@, frames_view(ctx.frames()), ctx.root()@, *cfg, ops_view(ops@)),
    decreases node, 2nat,
{
    match node {
        CompiledNode::Value { value } => Ok(value.copy()),
        CompiledNode::Array { nodes } => match eval_list(nodes, ctx, cfg, ops) {
            Ok(vs) => Ok(DataValue::Array(vs)),
            Err(e) => Err(e),
        },
        CompiledNode::StructuredObject { fields } => match eval_template(fields, ctx, cfg, ops) {
            Ok(ps) => Ok(DataValue::Object(ps)),
            Err(e) => Err(e),
        },
        CompiledNode::CompiledThrow { error } => Err(Error::thrown(error.copy())),
        CompiledNode::CustomOperator { name, args } => match find_operator(ops, name.as_str()) {
            None => Err(Error::invalid_operator(name.clone())),
            Some(k) => match eval_list(args, ctx, cfg, ops) {
                Ok(vs) => {
                    assert(ops_view(ops@)[k as int].1 == ops@[k as int].1);
                    ops[k].1.evaluate(&vs)
                },
                Err(e) => Err(e),
            },
        },
        CompiledNode::CompiledVar { scope_level, segments, reduce_hint, metadata_hint, default_value } => {
            match lookup_var(ctx, *scope_level, segments, *reduce_hint, *metadata_hint) {
                Some(v) => Ok(v),
                None => match default_value {
                    Some(d) => eval_node(d, ctx, cfg, ops),
                    None => Ok(DataValue::Null),
                },
            }
        },
        CompiledNode::CompiledExists { scope_level, segments } => {
            proof {
                assert(segments_view(segments@).skip(0) =~= segments_view(segments@));
            }
            let found = walk_from(scope_data_ref(ctx, *scope_level), segments, 0);
            Ok(DataValue::Bool(found.is_some()))
        },
        CompiledNode::CompiledMissing { args } => match run_missing(args, ctx, cfg, ops) {
            Ok(ps) => Ok(DataValue::Array(ps)),
            Err(e) => Err(e),
        },
        CompiledNode::CompiledMissingSome { .. } => run_missing_some(node, ctx, cfg, ops),
        CompiledNode::BuiltinOperator { opcode, args } => {
            let op = *opcode;
            if op == OpCode::If || op == OpCode::Ternary {
                run_if(args, ctx, cfg, ops)
            } else if op == OpCode::And {
                run_and_or(true, args, ctx, cfg, ops)
            } else if op == OpCode::Or {
                run_and_or(false, args, ctx, cfg, ops)
            } else if op == OpCode::Var || op == OpCode::Exists {
                match eval_list(args, ctx, cfg, ops) {
                    Ok(vs) => {
                        let data = scope_data_ref(ctx, 0);
                        if op == OpCode::Var {
                            Ok(var_dyn(data, &vs))
                        } else {
                            Ok(DataValue::Bool(exists_dyn(data, &vs)))
                        }
                    },
                    Err(e) => Err(e),
                }
            } else if op == OpCode::Val {
                match eval_list(args, ctx, cfg, ops) {
                    Ok(vs) => Ok(val_dyn(ctx, &vs)),
                    Err(e) => Err(e),
                }
            } else if op == OpCode::Switch {
                run_switch(args, ctx, cfg, ops)
            } else if op == OpCode::Coalesce || op == OpCode::Try {
                run_coalesce_try(op == OpCode::Try, args, ctx, cfg, ops)
            } else if op == OpCode::MapArray || op == OpCode::Filter || op == OpCode::All || op
                == OpCode::SomeOf || op == OpCode::NoneOf || op == OpCode::Reduce {
                run_iter(op, args, ctx, cfg, ops)
            } else if strict_op(op) {
                match eval_list(args, ctx, cfg, ops) {
                    Ok(vs) => apply_op(op, &vs, cfg),
                    Err(e) => Err(e),
                }
            } else {
                Err(unsupported(op))
            }
        },
    }
}

/// Whether a path is missing from `data`.
fn is_absent(data: &DataValue, segs: &Vec<PathSegment>) -> (r: bool)
    ensures
        r == absent(data@, segments_view(segs@)),
{
    proof {
        assert(segments_view(segs@).skip(0) =~= segments_view(segs@));
    }
    match walk_from(data, segs, 0) {
        None => true,
        Some(DataValue::Null) => true,
        Some(DataValue::String(t)) => t.as_str().is_empty(),
        Some(_) => false,
    }
}

/// Appends `x` to `out` when it is a string path missing from `data`.
fn check_path(data: &DataValue, x: &DataValue, out: &mut Vec<DataValue>)
    ensures
        values_view(final(out)@) == values_view(old(out)@) + path_missing(data@, x@),
{
    let ghost before = values_view(out@);
    match x {
        DataValue::String(p) => {
            let segs = parse_path_segments(p.as_str());
            if is_absent(data, &segs) {
                out.push(DataValue::String(p.clone()));
                assert(values_view(out@) =~= before + seq![x@]);
            } else {
                assert(values_view(out@) =~= before + Seq::<JsonValue>::empty());
            }
        },
        _ => {
            assert(values_view(out@) =~= before + Seq::<JsonValue>::empty());
        },
    }
}

/// Appends the missing paths a run-time argument names.
fn check_paths(data: &DataValue, v: &DataValue, out: &mut Vec<DataValue>)
    ensures
        values_view(final(out)@) == values_view(old(out)@) + missing_of_paths(data@, dyn_paths(v@), 0),
{
    let ghost start = values_view(out@);
    match v {
        DataValue::Array(xs) => {
            let ghost ps = values_view(xs@);
            let mut i: usize = 0;
            assert(start + missing_of_paths(data@, ps, 0) =~= start + missing_of_paths(data@, ps, 0));
            while i < xs.len()
                invariant
                    i <= xs@.len(),
                    ps == values_view(xs@),
                    start + missing_of_paths(data@, ps, 0) == values_view(out@) + missing_of_paths(data@, ps, i as nat),
                decreases xs@.len() - i,
            {
                let ghost before = values_view(out@);
                check_path(data, &xs[i], out);
                assert(before + (path_missing(data@, ps[i as int]) + missing_of_paths(data@, ps, (i + 1) as nat))
                    =~= values_view(out@) + missing_of_paths(data@, ps, (i + 1) as nat));
                i = i + 1;
            }
            assert(values_view(out@) + Seq::<JsonValue>::empty() =~= values_view(out@));
            assert(dyn_paths(v@) == ps);
        },
        _ => {
            check_path(data, v, out);
            let ghost one = seq![v@];
            assert(dyn_paths(v@) == one);
            assert(missing_of_paths(data@, one, 1) == Seq::<JsonValue>::empty());
            assert(path_missing(data@, v@) + Seq::<JsonValue>::empty() =~= path_missing(data@, v@));
        },
    }
}

/// `missing`: the paths the current data lacks.
fn run_missing<'a, O: Operator>(args: &Vec<MissingArg>, ctx: &DataContextStack<'a>, cfg: &EvaluationConfig, ops: &Vec<(String, O)>) -> (r: Result<
    Vec<DataValue>,
    Error,
>)
    ensures
        results_view(r) == missing_args(missing_args_view(args@), 0, frames_view(ctx.frames()), ctx.root()@, *cfg, ops_view(ops@)),
    decreases args, 1nat,
{
    let ghost av = missing_args_view(args@);
    let ghost fr = frames_view(ctx.frames());
    let ghost rt = ctx.root()@;
    let data = scope_data_ref(ctx, 0);
    let mut out: Vec<DataValue> = Vec::new();
    let mut i: usize = 0;
    assert(values_view(out@) + Seq::<JsonValue>::empty() =~= Seq::<JsonValue>::empty());
    while i < args.len()
        invariant
            i <= args@.len(),
            av == missing_args_view(args@),
            fr == frames_view(ctx.frames()),
            rt == ctx.root()@,
            data@ == scope_data(fr, rt, 0),
            missing_args(av, 0, fr, rt, *cfg, ops_view(ops@)) == prepend_ok(values_view(out@), missing_args(av, i as nat, fr, rt, *cfg, ops_view(ops@))),
        decreases args@.len() - i,
    {
        proof {
            lemma_missing_args_view(args@);
            assert(decreases_to!(args => args@));
            assert(decreases_to!(args@ => args@[i as int]));
        }
        let ghost before = values_view(out@);
        match &args[i] {
            MissingArg::Static { path, segments } => {
                if is_absent(data, segments) {
                    out.push(DataValue::String(path.clone()));
                    proof {
                        assert(values_view(out@) =~= before + seq![JsonValue::Str(path@)]);
                        match missing_args(av, (i + 1) as nat, fr, rt, *cfg, ops_view(ops@)) {
                            Ok(t) => {
                                assert(before + (seq![JsonValue::Str(path@)] + t) =~= values_view(out@) + t);
                            },
                            Err(_) => {},
                        }
                    }
                } else {
                    proof {
                        match missing_args(av, (i + 1) as nat, fr, rt, *cfg, ops_view(ops@)) {
                            Ok(t) => {
                                assert(before + (Seq::<JsonValue>::empty() + t) =~= before + t);
                            },
                            Err(_) => {},
                        }
                    }
                }
            },
            MissingArg::Dynamic(n) => {
                match eval_node(n, ctx, cfg, ops) {
                    Ok(v) => {
                        check_paths(data, &v, &mut out);
                        proof {
                            match missing_args(av, (i + 1) as nat, fr, rt, *cfg, ops_view(ops@)) {
                                Ok(t) => {
                                    assert(before + (missing_of_paths(data@, dyn_paths(v@), 0) + t) =~= values_view(out@) + t);
                                },
                                Err(_) => {},
                            }
                        }
                    },
                    Err(e) => {
                        return Err(e);
                    },
                }
            },
        }
        i = i + 1;
    }
    proof {
        lemma_missing_args_view(args@);
    }
    assert(missing_args(av, i as nat, fr, rt, *cfg, ops_view(ops@)) == Ok::<Seq<JsonValue>, EvalError>(Seq::empty()));
    assert(values_view(out@) + Seq::<JsonValue>::empty() =~= values_view(out@));
    Ok(out)
}

/// The missing paths among pre-parsed paths.
fn static_missing_paths(data: &DataValue, list: &Vec<(String, Vec<PathSegment>)>) -> (r: Vec<DataValue>)
    ensures
        values_view(r@) == static_missing(data@, static_paths_view(list@), 0),
{
    let ghost lv = static_paths_view(list@);
    let mut out: Vec<DataValue> = Vec::new();
    let mut i: usize = 0;
    assert(values_view(out@) + static_missing(data@, lv, 0) =~= static_missing(data@, lv, 0));
    while i < list.len()
        invariant
            i <= list@.len(),
            lv == static_paths_view(list@),
            static_missing(data@, lv, 0) == values_view(out@) + static_missing(data@, lv, i as nat),
        decreases list@.len() - i,
    {
        let ghost before = values_view(out@);
        assert(lv[i as int] == (list@[i as int].0@, segments_view(list@[i as int].1@)));
        if is_absent(data, &list[i].1) {
            out.push(DataValue::String(list[i].0.clone()));
            assert(values_view(out@) =~= before + seq![JsonValue::Str(lv[i as int].0)]);
            assert(before + (seq![JsonValue::Str(lv[i as int].0)] + static_missing(data@, lv, (i + 1) as nat))
                =~= values_view(out@) + static_missing(data@, lv, (i + 1) as nat));
        } else {
            assert(before + (Seq::<JsonValue>::empty() + static_missing(data@, lv, (i + 1) as nat))
                =~= before + static_missing(data@, lv, (i + 1) as nat));
        }
        i = i + 1;
    }
    assert(values_view(out@) + Seq::<JsonValue>::empty() =~= values_view(out@));
    out
}

/// `missing_some`: the missing paths, or none when enough are present.
fn run_missing_some<'a, O: Operator>(node: &CompiledNode, ctx: &DataContextStack<'a>, cfg: &EvaluationConfig, ops: &Vec<(String, O)>) -> (r: Result<
    DataValue,
    Error,
>)
    requires
        node is CompiledMissingSome,
    ensures
        result_view(r) == eval_spec(node@, frames_view(ctx.frames()), ctx.root()@, *cfg, ops_view(ops@)),
    decreases node, 1nat,
{
    let (min_present, paths) = match node {
        CompiledNode::CompiledMissingSome { min_present, paths } => (min_present, paths),
        _ => {
            return Err(invalid_args());
        },
    };
    assert(node@ == NodeView::MissingSome(missing_min_view(*min_present), missing_paths_view(*paths)));
    let ghost fr = frames_view(ctx.frames());
    let ghost rt = ctx.root()@;
    let data = scope_data_ref(ctx, 0);
    let k: i128 = match min_present {
        MissingMin::Static(k) => *k as i128,
        MissingMin::Dynamic(b) => match eval_node(b, ctx, cfg, ops) {
            Ok(v) => match try_coerce_to_integer_cfg(&v, &cfg.numeric_coercion) {
                Some(x) => x as i128,
                None => {
                    return Err(invalid_args());
                },
            },
            Err(e) => {
                return Err(e);
            },
        },
    };
    let (total, miss): (usize, Vec<DataValue>) = match paths {
        MissingPaths::Static(list) => {
            assert(static_paths_view(list@).len() == list@.len());
            (list.len(), static_missing_paths(data, list))
        },
        MissingPaths::Dynamic(b) => match eval_node(b, ctx, cfg, ops) {
            Ok(v) => {
                let mut out: Vec<DataValue> = Vec::new();
                check_paths(data, &v, &mut out);
                assert(values_view(out@) =~= missing_of_paths(data@, dyn_paths(v@), 0));
                let n: usize = match &v {
                    DataValue::Array(xs) => {
                        assert(v@ == JsonValue::Array(values_view(xs@)));
                        xs.len()
                    },
                    _ => 1,
                };
                assert(n == dyn_paths(v@).len());
                (n, out)
            },
            Err(e) => {
                return Err(e);
            },
        },
    };
    if total as i128 - miss.len() as i128 >= k {
        let none: Vec<DataValue> = Vec::new();
        assert(values_view(none@) =~= Seq::<JsonValue>::empty());
        Ok(DataValue::Array(none))
    } else {
        Ok(DataValue::Array(miss))
    }
}

/// `??` (when not `is_try`) or `try`: arguments are evaluated in turn
/// until one gives a non-`null` value, or evaluates without an error.
fn run_coalesce_try<'a, O: Operator>(is_try: bool, args: &Vec<CompiledNode>, ctx: &DataContextStack<'a>, cfg: &EvaluationConfig, ops: &Vec<(String, O)>) -> (r: Result<
    DataValue,
    Error,
>)
    ensures
        result_view(r) == (if is_try {
            eval_try(nodes_view(args@), 0, frames_view(ctx.frames()), ctx.root()@, *cfg, ops_view(ops@))
        } else {
            eval_coalesce(nodes_view(args@), 0, frames_view(ctx.frames()), ctx.root()@, *cfg, ops_view(ops@))
        }),
    decreases args, 1nat,
{
    let ghost nv = nodes_view(args@);
    let ghost fr = frames_view(ctx.frames());
    let ghost rt = ctx.root()@;
    let mut i: usize = 0;
    while i < args.len()
        invariant
            i <= args@.len(),
            nv == nodes_view(args@),
            fr == frames_view(ctx.frames()),
            rt == ctx.root()@,
            is_try ==> eval_try(nv, 0, fr, rt, *cfg, ops_view(ops@)) == eval_try(nv, i as nat, fr, rt, *cfg, ops_view(ops@)),
            !is_try ==> eval_coalesce(nv, 0, fr, rt, *cfg, ops_view(ops@)) == eval_coalesce(nv, i as nat, fr, rt, *cfg, ops_view(ops@)),
        decreases args@.len() - i,
    {
        proof {
            assert(decreases_to!(args => args@));
            assert(decreases_to!(args@ => args@[i as int]));
        }
        match eval_node(&args[i], ctx, cfg, ops) {
            Ok(v) => {
                if is_try || !v.is_null() {
                    return Ok(v);
                }
            },
            Err(e) => {
                if !is_try || i + 1 == args.len() {
                    return Err(e);
                }
            },
        }
        i = i + 1;
    }
    Ok(DataValue::Null)
}

/// The type name of a value.
fn type_of(v: &DataValue) -> (r: DataValue)
    ensures
        r@ == JsonValue::Str(value_kind_name(v@)),
{
    let name = match v {
        DataValue::Null => "null",
        DataValue::Bool(_) => "boolean",
        DataValue::Number(_) => "number",
        DataValue::String(_) => "string",
        DataValue::Array(_) => "array",
        DataValue::Object(_) => "object",
    };
    DataValue::String(String::from_str(name))
}

/// The length of an array or a string.
fn length_of(v: &DataValue) -> (r: Result<DataValue, Error>)
    ensures
        result_view(r) == (if length_spec(v@) matches JsonValue::Number(k) && !fits(k) {
            Err(overflow())
        } else {
            Ok::<JsonValue, EvalError>(length_spec(v@))
        }),
{
    let n: usize = match v {
        DataValue::Array(xs) => {
            assert(v@ == JsonValue::Array(values_view(xs@)));
            xs.len()
        },
        DataValue::String(t) => t.as_str().unicode_len(),
        _ => {
            return Ok(DataValue::Null);
        },
    };
    if n as u64 > i64::MAX as u64 {
        return Err(overflow_error());
    }
    Ok(DataValue::Number(n as i64))
}

/// `var` over evaluated arguments.
fn var_dyn(data: &DataValue, vs: &Vec<DataValue>) -> (r: DataValue)
    ensures
        r@ == var_dyn_spec(data@, values_view(vs@)),
{
    let ghost vv = values_view(vs@);
    let segs: Option<Vec<PathSegment>> = if vs.len() == 0 {
        Some(Vec::new())
    } else {
        match &vs[0] {
            DataValue::String(t) => Some(parse_path_segments(t.as_str())),
            DataValue::Number(k) => {
                let text = format_i64(*k);
                Some(parse_path_segments(text.as_str()))
            },
            DataValue::Null => Some(Vec::new()),
            _ => None,
        }
    };
    let found = match &segs {
        Some(sg) => {
            proof {
                assert(segments_view(sg@).skip(0) =~= segments_view(sg@));
                if vs@.len() == 0 || vs@[0] is Null {
                    assert(segments_view(sg@) =~= Seq::<SegmentView>::empty());
                }
            }
            walk_from(data, sg, 0)
        },
        None => None,
    };
    match found {
        Some(v) => v.copy(),
        None => if vs.len() > 1 {
            vs[1].copy()
        } else {
            DataValue::Null
        },
    }
}

/// `exists` over evaluated arguments.
fn exists_dyn(data: &DataValue, vs: &Vec<DataValue>) -> (r: bool)
    ensures
        r == exists_dyn_spec(data@, values_view(vs@)),
{
    let ghost vv = values_view(vs@);
    let mut segs: Vec<PathSegment> = Vec::new();
    let mut i: usize = 0;
    while i < vs.len()
        invariant
            i <= vs@.len(),
            vv == values_view(vs@),
            forall|j: int| 0 <= j < i ==> #[trigger] vv[j] is Str,
            segments_view(segs@) == vv.take(i as int).map_values(|v: JsonValue| SegmentView::Field(v->Str_0)),
        decreases vs@.len() - i,
    {
        proof {
            lemma_values_view(vs@);
        }
        match &vs[i] {
            DataValue::String(t) => {
                let ghost before = segments_view(segs@);
                segs.push(PathSegment::Field(t.clone()));
                assert(segments_view(segs@) =~= before.push(SegmentView::Field(t@)));
                assert(vv.take(i as int + 1).map_values(|v: JsonValue| SegmentView::Field(v->Str_0)) =~= vv.take(
                    i as int,
                ).map_values(|v: JsonValue| SegmentView::Field(v->Str_0)).push(SegmentView::Field(t@)));
            },
            _ => {
                assert(!(vv[i as int] is Str));
                return false;
            },
        }
        i = i + 1;
    }
    assert(vv.take(vs@.len() as int) =~= vv);
    proof {
        assert(segments_view(segs@).skip(0) =~= segments_view(segs@));
    }
    walk_from(data, &segs, 0).is_some()
}

/// The error `throw` raises for an evaluated value.
fn thrown_error(v: DataValue) -> (r: Error)
    ensures
        error_view(r.kind) == EvalError::Thrown(thrown_payload(v@)),
{
    match v {
        DataValue::String(t) => {
            let entries = vec![(String::from_str("type"), DataValue::String(t))];
            assert(pairs_view(entries@) =~= seq![("type"@, JsonValue::Str(t@))]);
            Error::thrown(DataValue::Object(entries))
        },
        other => Error::thrown(other),
    }
}

/// `s` ends with `suffix`.
fn ends_with(s: &str, suffix: &str) -> (r: bool)
    ensures
        r == ends_with_spec(s@, suffix@),
{
    let n = s.unicode_len();
    let k = suffix.unicode_len();
    if k > n {
        return false;
    }
    let tail = s.substring_char(n - k, n);
    key_eq(tail, suffix)
}

/// `switch`.
fn run_switch<'a, O: Operator>(args: &Vec<CompiledNode>, ctx: &DataContextStack<'a>, cfg: &EvaluationConfig, ops: &Vec<(String, O)>) -> (r: Result<
    DataValue,
    Error,
>)
    ensures
        result_view(r) == eval_switch(nodes_view(args@), frames_view(ctx.frames()), ctx.root()@, *cfg, ops_view(ops@)),
    decreases args, 1nat,
{
    if args.len() < 2 {
        return Err(invalid_args());
    }
    proof {
        assert(decreases_to!(args => args@));
        assert(decreases_to!(args@ => args@[0]));
        assert(decreases_to!(args@ => args@[1]));
    }
    let d = match eval_node(&args[0], ctx, cfg, ops) {
        Ok(v) => v,
        Err(e) => {
            return Err(e);
        },
    };
    let c = match eval_node(&args[1], ctx, cfg, ops) {
        Ok(v) => v,
        Err(e) => {
            return Err(e);
        },
    };
    let empty: Vec<DataValue> = Vec::new();
    let cases: &Vec<DataValue> = match &c {
        DataValue::Array(xs) => xs,
        _ => &empty,
    };
    assert(values_view(cases@) == iter_items(c@));
    match pick_case(&d, cases) {
        Some(v) => Ok(v),
        None => if args.len() > 2 {
            proof {
                assert(decreases_to!(args@ => args@[2]));
            }
            eval_node(&args[2], ctx, cfg, ops)
        } else {
            Ok(DataValue::Null)
        },
    }
}

/// The result paired with the first case equal to `d`.
fn pick_case(d: &DataValue, cases: &Vec<DataValue>) -> (r: Option<DataValue>)
    ensures
        opt_data_view(r) == switch_pick(d@, values_view(cases@), 0),
{
    let ghost cv = values_view(cases@);
    let mut i: usize = 0;
    while i < cases.len()
        invariant
            i <= cases@.len(),
            cv == values_view(cases@),
            switch_pick(d@, cv, 0) == switch_pick(d@, cv, i as nat),
        decreases cases@.len() - i,
    {
        proof {
            lemma_values_view(cases@);
        }
        match &cases[i] {
            DataValue::Array(p) => {
                proof {
                    lemma_values_view(p@);
                }
                assert(cv[i as int] == JsonValue::Array(values_view(p@)));
                if p.len() >= 2 && data_eq(&p[0], d) {
                    return Some(p[1].copy());
                }
            },
            _ => {},
        }
        i = i + 1;
    }
    None
}

/// `val` over evaluated arguments.
fn val_dyn<'a>(ctx: &DataContextStack<'a>, vs: &Vec<DataValue>) -> (r: DataValue)
    ensures
        r@ == val_dyn_spec(frames_view(ctx.frames()), ctx.root()@, values_view(vs@)),
{
    let ghost vv = values_view(vs@);
    proof {
        lemma_values_view(vs@);
    }
    let mut level: u32 = 0;
    let mut from: usize = 0;
    if vs.len() > 0 {
        match &vs[0] {
            DataValue::Array(items) => {
                proof {
                    lemma_values_view(items@);
                }
                assert(vv[0] == JsonValue::Array(values_view(items@)));
                if items.len() > 0 {
                    match &items[0] {
                        DataValue::Number(l) => {
                            let m: i128 = if *l < 0 { -(*l as i128) } else { *l as i128 };
                            level = m as u32;
                            from = 1;
                        },
                        _ => {},
                    }
                }
            },
            _ => {},
        }
    }
    assert(vv.len() == vs@.len());
    assert(from == 1 <==> (vs@.len() > 0 && val_level(vv[0]) is Some));
    assert(from == 1 ==> val_level(vv[0]) == Some(level));
    let mut segs: Vec<PathSegment> = Vec::new();
    let mut i: usize = from;
    assert(segments_view(segs@) + Seq::<SegmentView>::empty() =~= segments_view(segs@));
    while i < vs.len()
        invariant
            from <= i <= vs@.len(),
            vv == values_view(vs@),
            from == 1 <==> (vs@.len() > 0 && val_level(vv[0]) is Some),
            from == 1 ==> val_level(vv[0]) == Some(level),
            from == 0 ==> level == 0,
            from <= 1,
            vv.len() == vs@.len(),
            val_parts(vv, from as nat) == match val_parts(vv, i as nat) {
                Some(t) => Some(segments_view(segs@) + t),
                None => None::<Seq<SegmentView>>,
            },
        decreases vs@.len() - i,
    {
        proof {
            lemma_values_view(vs@);
        }
        let seg: PathSegment = match &vs[i] {
            DataValue::String(t) => match parse_usize(t.as_str()) {
                Some(k) => PathSegment::FieldOrIndex(t.clone(), k),
                None => PathSegment::Field(t.clone()),
            },
            DataValue::Number(n) => {
                if *n < 0 {
                    assert(val_part(vv[i as int]) is None);
                    assert(val_parts(vv, i as nat) is None);
                    assert(val_parts(vv, from as nat) is None);
                    return DataValue::Null;
                }
                PathSegment::Index(*n as usize)
            },
            _ => {
                assert(val_part(vv[i as int]) is None);
                assert(val_parts(vv, i as nat) is None);
                assert(val_parts(vv, from as nat) is None);
                return DataValue::Null;
            },
        };
        assert(val_part(vv[i as int]) == Some(seg@));
        let ghost before = segments_view(segs@);
        segs.push(seg);
        proof {
            assert(segments_view(segs@) =~= before.push(seg@));
            match val_parts(vv, (i + 1) as nat) {
                Some(t) => {
                    assert(before + (seq![seg@] + t) =~= before.push(seg@) + t);
                },
                None => {},
            }
        }
        i = i + 1;
    }
    assert(segments_view(segs@) + Seq::<SegmentView>::empty() =~= segments_view(segs@));
    proof {
        assert(segments_view(segs@).skip(0) =~= segments_view(segs@));
    }
    match walk_from(scope_data_ref(ctx, level), &segs, 0) {
        Some(v) => v.copy(),
        None => DataValue::Null,
    }
}

/// An iterating operator.
fn run_iter<'a, O: Operator>(op: OpCode, args: &Vec<CompiledNode>, ctx: &DataContextStack<'a>, cfg: &EvaluationConfig, ops: &Vec<(String, O)>) -> (r: Result<
    DataValue,
    Error,
>)
    requires
        is_iter_op(op),
    ensures
        result_view(r) == eval_iter(op, nodes_view(args@), frames_view(ctx.frames()), ctx.root()@, *cfg, ops_view(ops@)),
    decreases args, 1nat,
{
    let ghost nv = nodes_view(args@);
    if args.len() < 2 {
        return Err(invalid_args());
    }
    proof {
        assert(decreases_to!(args => args@));
        assert(decreases_to!(args@ => args@[0]));
        assert(decreases_to!(args@ => args@[1]));
    }
    let list_v = match eval_node(&args[0], ctx, cfg, ops) {
        Ok(v) => v,
        Err(e) => {
            return Err(e);
        },
    };
    let empty: Vec<DataValue> = Vec::new();
    let items: &Vec<DataValue> = match &list_v {
        DataValue::Array(xs) => xs,
        _ => &empty,
    };
    assert(values_view(items@) == iter_items(list_v@));
    let body = &args[1];
    if op == OpCode::MapArray {
        match map_over(body, items, ctx, cfg, ops) {
            Ok(vs) => Ok(DataValue::Array(vs)),
            Err(e) => Err(e),
        }
    } else if op == OpCode::Filter {
        match filter_over(body, items, ctx, cfg, ops) {
            Ok(vs) => Ok(DataValue::Array(vs)),
            Err(e) => Err(e),
        }
    } else if op == OpCode::Reduce {
        let init = if args.len() > 2 {
            proof {
                assert(decreases_to!(args@ => args@[2]));
            }
            eval_node(&args[2], ctx, cfg, ops)
        } else {
            Ok(DataValue::Null)
        };
        match init {
            Ok(acc) => reduce_over(body, items, acc, ctx, cfg, ops),
            Err(e) => Err(e),
        }
    } else {
        let want = op != OpCode::All;
        match any_over(body, items, want, ctx, cfg, ops) {
            Ok(found) => Ok(DataValue::Bool(
                if op == OpCode::All {
                    items.len() > 0 && !found
                } else if op == OpCode::SomeOf {
                    found
                } else {
                    !found
                },
            )),
            Err(e) => Err(e),
        }
    }
}

/// `body` over each element, with the element's frame on top.
fn map_over<'a, O: Operator>(body: &CompiledNode, items: &Vec<DataValue>, ctx: &DataContextStack<'a>, cfg: &EvaluationConfig, ops: &Vec<(String, O)>) -> (r: Result<
    Vec<DataValue>,
    Error,
>)
    ensures
        results_view(r) == map_items(body@, values_view(items@), 0, frames_view(ctx.frames()), ctx.root()@, *cfg, ops_view(ops@)),
    decreases body, 3nat,
{
    let ghost vv = values_view(items@);
    let ghost fr = frames_view(ctx.frames());
    let ghost rt = ctx.root()@;
    let mut out: Vec<DataValue> = Vec::new();
    let mut i: usize = 0;
    assert(values_view(out@) + Seq::<JsonValue>::empty() =~= Seq::<JsonValue>::empty());
    while i < items.len()
        invariant
            i <= items@.len(),
            vv == values_view(items@),
            fr == frames_view(ctx.frames()),
            rt == ctx.root()@,
            map_items(body@, vv, 0, fr, rt, *cfg, ops_view(ops@)) == prepend_ok(values_view(out@), map_items(body@, vv, i as nat, fr, rt, *cfg, ops_view(ops@))),
        decreases items@.len() - i,
    {
        let child = ctx.with_frame(ContextFrame::Indexed { data: &items[i], index: i });
        assert(frames_view(child.frames()) == fr.push(item_frame(vv, i as nat)));
        match eval_node(body, &child, cfg, ops) {
            Ok(v) => {
                let ghost before = values_view(out@);
                out.push(v);
                proof {
                    assert(values_view(out@) =~= before.push(v@));
                    match map_items(body@, vv, (i + 1) as nat, fr, rt, *cfg, ops_view(ops@)) {
                        Ok(t) => {
                            assert(before + (seq![v@] + t) =~= before.push(v@) + t);
                        },
                        Err(_) => {},
                    }
                }
            },
            Err(e) => {
                return Err(e);
            },
        }
        i = i + 1;
    }
    assert(values_view(out@) + Seq::<JsonValue>::empty() =~= values_view(out@));
    Ok(out)
}

/// The elements for which `body` is true.
fn filter_over<'a, O: Operator>(body: &CompiledNode, items: &Vec<DataValue>, ctx: &DataContextStack<'a>, cfg: &EvaluationConfig, ops: &Vec<(String, O)>) -> (r: Result<
    Vec<DataValue>,
    Error,
>)
    ensures
        results_view(r) == filter_items(body@, values_view(items@), 0, frames_view(ctx.frames()), ctx.root()@, *cfg, ops_view(ops@)),
    decreases body, 3nat,
{
    let ghost vv = values_view(items@);
    let ghost fr = frames_view(ctx.frames());
    let ghost rt = ctx.root()@;
    let mut out: Vec<DataValue> = Vec::new();
    let mut i: usize = 0;
    assert(values_view(out@) + Seq::<JsonValue>::empty() =~= Seq::<JsonValue>::empty());
    while i < items.len()
        invariant
            i <= items@.len(),
            vv == values_view(items@),
            fr == frames_view(ctx.frames()),
            rt == ctx.root()@,
            filter_items(body@, vv, 0, fr, rt, *cfg, ops_view(ops@)) == prepend_ok(values_view(out@), filter_items(body@, vv, i as nat, fr, rt, *cfg, ops_view(ops@))),
        decreases items@.len() - i,
    {
        let child = ctx.with_frame(ContextFrame::Indexed { data: &items[i], index: i });
        assert(frames_view(child.frames()) == fr.push(item_frame(vv, i as nat)));
        match eval_node(body, &child, cfg, ops) {
            Ok(v) => {
                if is_truthy(&v, cfg.truthy_evaluator) {
                    let ghost before = values_view(out@);
                    let item = items[i].copy();
                    out.push(item);
                    proof {
                        assert(values_view(out@) =~= before.push(vv[i as int]));
                        match filter_items(body@, vv, (i + 1) as nat, fr, rt, *cfg, ops_view(ops@)) {
                            Ok(t) => {
                                assert(before + (seq![vv[i as int]] + t) =~= before.push(vv[i as int]) + t);
                            },
                            Err(_) => {},
                        }
                    }
                }
            },
            Err(e) => {
                return Err(e);
            },
        }
        i = i + 1;
    }
    assert(values_view(out@) + Seq::<JsonValue>::empty() =~= values_view(out@));
    Ok(out)
}

/// Whether some element's `body` value has truthiness `want`.
fn any_over<'a, O: Operator>(body: &CompiledNode, items: &Vec<DataValue>, want: bool, ctx: &DataContextStack<'a>, cfg: &EvaluationConfig, ops: &Vec<(String, O)>) -> (r: Result<
    bool,
    Error,
>)
    ensures
        match r {
            Ok(b) => any_item(body@, values_view(items@), 0, want, frames_view(ctx.frames()), ctx.root()@, *cfg, ops_view(ops@))
                == Ok::<bool, EvalError>(b),
            Err(e) => any_item(body@, values_view(items@), 0, want, frames_view(ctx.frames()), ctx.root()@, *cfg, ops_view(ops@))
                == Err::<bool, EvalError>(error_view(e.kind)),
        },
    decreases body, 3nat,
{
    let ghost vv = values_view(items@);
    let ghost fr = frames_view(ctx.frames());
    let ghost rt = ctx.root()@;
    let mut i: usize = 0;
    while i < items.len()
        invariant
            i <= items@.len(),
            vv == values_view(items@),
            fr == frames_view(ctx.frames()),
            rt == ctx.root()@,
            any_item(body@, vv, 0, want, fr, rt, *cfg, ops_view(ops@)) == any_item(body@, vv, i as nat, want, fr, rt, *cfg, ops_view(ops@)),
        decreases items@.len() - i,
    {
        let child = ctx.with_frame(ContextFrame::Indexed { data: &items[i], index: i });
        assert(frames_view(child.frames()) == fr.push(item_frame(vv, i as nat)));
        match eval_node(body, &child, cfg, ops) {
            Ok(v) => {
                if is_truthy(&v, cfg.truthy_evaluator) == want {
                    return Ok(true);
                }
            },
            Err(e) => {
                return Err(e);
            },
        }
        i = i + 1;
    }
    Ok(false)
}

/// The accumulator threaded through the elements.
fn reduce_over<'a, O: Operator>(body: &CompiledNode, items: &Vec<DataValue>, init: DataValue, ctx: &DataContextStack<'a>, cfg: &EvaluationConfig, ops: &Vec<(String, O)>) -> (r: Result<
    DataValue,
    Error,
>)
    ensures
        result_view(r) == reduce_items(body@, values_view(items@), 0, init@, frames_view(ctx.frames()), ctx.root()@, *cfg, ops_view(ops@)),
    decreases body, 3nat,
{
    let ghost vv = values_view(items@);
    let ghost fr = frames_view(ctx.frames());
    let ghost rt = ctx.root()@;
    let mut acc = init;
    let mut i: usize = 0;
    while i < items.len()
        invariant
            i <= items@.len(),
            vv == values_view(items@),
            fr == frames_view(ctx.frames()),
            rt == ctx.root()@,
            reduce_items(body@, vv, 0, init@, fr, rt, *cfg, ops_view(ops@)) == reduce_items(body@, vv, i as nat, acc@, fr, rt, *cfg, ops_view(ops@)),
        decreases items@.len() - i,
    {
        let res = {
            let child = ctx.with_frame(ContextFrame::Reduce { current: &items[i], accumulator: &acc });
            assert(frames_view(child.frames()) == fr.push(FrameView::Reduce(vv[i as int], acc@)));
            eval_node(body, &child, cfg, ops)
        };
        match res {
            Ok(v) => {
                acc = v;
            },
            Err(e) => {
                return Err(e);
            },
        }
        i = i + 1;
    }
    Ok(acc)
}

/// Evaluates every node in order, stopping at the first error.
pub fn eval_list<'a, O: Operator>(nodes: &Vec<CompiledNode>, ctx: &DataContextStack<'a>, cfg: &EvaluationConfig, ops: &Vec<(String, O)>) -> (r: Result<
    Vec<DataValue>,
    Error,
>)
    ensures
        results_view(r) == eval_seq(nodes_view(nodes@), 0, frames_view(ctx.frames()), ctx.root()@, *cfg, ops_view(ops@)),
    decreases nodes, 1nat,
{
    let ghost nv = nodes_view(nodes@);
    let ghost fr = frames_view(ctx.frames());
    let ghost rt = ctx.root()@;
    let mut out: Vec<DataValue> = Vec::new();
    let mut i: usize = 0;
    assert(values_view(out@) =~= Seq::<JsonValue>::empty());
    assert(Seq::<JsonValue>::empty() + Seq::<JsonValue>::empty() =~= Seq::<JsonValue>::empty());
    while i < nodes.len()
        invariant
            i <= nodes@.len(),
            nv == nodes_view(nodes@),
            fr == frames_view(ctx.frames()),
            rt == ctx.root()@,
            eval_seq(nv, 0, fr, rt, *cfg, ops_view(ops@)) == prepend_ok(values_view(out@), eval_seq(nv, i as nat, fr, rt, *cfg, ops_view(ops@))),
        decreases nodes@.len() - i,
    {
        proof {
            assert(decreases_to!(nodes => nodes@));
            assert(decreases_to!(nodes@ => nodes@[i as int]));
        }
        match eval_node(&nodes[i], ctx, cfg, ops) {
            Ok(v) => {
                let ghost before = values_view(out@);
                out.push(v);
                proof {
                    assert(values_view(out@) =~= before.push(v@));
                    match eval_seq(nv, (i + 1) as nat, fr, rt, *cfg, ops_view(ops@)) {
                        Ok(t) => {
                            assert(before + (seq![v@] + t) =~= before.push(v@) + t);
                        },
                        Err(_) => {},
                    }
                }
            },
            Err(e) => {
                return Err(e);
            },
        }
        i = i + 1;
    }
    assert(values_view(out@) + Seq::<JsonValue>::empty() =~= values_view(out@));
    Ok(out)
}

/// Evaluates every field of a template in order.
fn eval_template<'a, O: Operator>(
    fields: &Vec<(String, CompiledNode)>,
    ctx: &DataContextStack<'a>,
    cfg: &EvaluationConfig,
    ops: &Vec<(String, O)>,
) -> (r: Result<Vec<(String, DataValue)>, Error>)
    ensures
        match r {
            Ok(ps) => eval_fields(fields_view(fields@), 0, frames_view(ctx.frames()), ctx.root()@, *cfg, ops_view(ops@)) == Ok::<
                Seq<(Seq<char>, JsonValue)>,
                EvalError,
            >(pairs_view(ps@)),
            Err(e) => eval_fields(fields_view(fields@), 0, frames_view(ctx.frames()), ctx.root()@, *cfg, ops_view(ops@)) == Err::<
                Seq<(Seq<char>, JsonValue)>,
                EvalError,
            >(error_view(e.kind)),
        },
    decreases fields, 1nat,
{
    let ghost fv = fields_view(fields@);
    let ghost fr = frames_view(ctx.frames());
    let ghost rt = ctx.root()@;
    let mut out: Vec<(String, DataValue)> = Vec::new();
    let mut i: usize = 0;
    assert(pairs_view(out@) =~= Seq::<(Seq<char>, JsonValue)>::empty());
    assert(Seq::<(Seq<char>, JsonValue)>::empty() + Seq::<(Seq<char>, JsonValue)>::empty()
        =~= Seq::<(Seq<char>, JsonValue)>::empty());
    while i < fields.len()
        invariant
            i <= fields@.len(),
            fv == fields_view(fields@),
            fr == frames_view(ctx.frames()),
            rt == ctx.root()@,
            eval_fields(fv, 0, fr, rt, *cfg, ops_view(ops@)) == prepend_fields(pairs_view(out@), eval_fields(fv, i as nat, fr, rt, *cfg, ops_view(ops@))),
        decreases fields@.len() - i,
    {
        proof {
            assert(decreases_to!(fields => fields@));
            assert(decreases_to!(fields@ => fields@[i as int]));
            assert(decreases_to!(fields@[i as int] => fields@[i as int].1));
        }
        match eval_node(&fields[i].1, ctx, cfg, ops) {
            Ok(v) => {
                let ghost before = pairs_view(out@);
                let key = fields[i].0.clone();
                let ghost entry = (key@, v@);
                out.push((key, v));
                proof {
                    assert(pairs_view(out@) =~= before.push(entry));
                    match eval_fields(fv, (i + 1) as nat, fr, rt, *cfg, ops_view(ops@)) {
                        Ok(t) => {
                            assert(before + (seq![entry] + t) =~= before.push(entry) + t);
                        },
                        Err(_) => {},
                    }
                }
            },
            Err(e) => {
                return Err(e);
            },
        }
        i = i + 1;
    }
    assert(pairs_view(out@) + Seq::<(Seq<char>, JsonValue)>::empty() =~= pairs_view(out@));
    Ok(out)
}

/// `if` / `?:`: conditions are evaluated in turn until one is true.
fn run_if<'a, O: Operator>(args: &Vec<CompiledNode>, ctx: &DataContextStack<'a>, cfg: &EvaluationConfig, ops: &Vec<(String, O)>) -> (r: Result<
    DataValue,
    Error,
>)
    ensures
        result_view(r) == eval_if(nodes_view(args@), 0, frames_view(ctx.frames()), ctx.root()@, *cfg, ops_view(ops@)),
    decreases args, 1nat,
{
    let ghost nv = nodes_view(args@);
    let ghost fr = frames_view(ctx.frames());
    let ghost rt = ctx.root()@;
    let mut i: usize = 0;
    while i < args.len()
        invariant
            i <= args@.len(),
            nv == nodes_view(args@),
            fr == frames_view(ctx.frames()),
            rt == ctx.root()@,
            eval_if(nv, 0, fr, rt, *cfg, ops_view(ops@)) == eval_if(nv, i as nat, fr, rt, *cfg, ops_view(ops@)),
        decreases args@.len() - i,
    {
        proof {
            assert(decreases_to!(args => args@));
            assert(decreases_to!(args@ => args@[i as int]));
        }
        if i + 1 == args.len() {
            return eval_node(&args[i], ctx, cfg, ops);
        }
        match eval_node(&args[i], ctx, cfg, ops) {
            Ok(c) => {
                if is_truthy(&c, cfg.truthy_evaluator) {
                    proof {
                        assert(decreases_to!(args@ => args@[i + 1]));
                    }
                    return eval_node(&args[i + 1], ctx, cfg, ops);
                }
            },
            Err(e) => {
                return Err(e);
            },
        }
        i = i + 2;
    }
    Ok(DataValue::Null)
}

/// `and` (when `is_and`) or `or`: values are evaluated in turn until one
/// decides.
fn run_and_or<'a, O: Operator>(is_and: bool, args: &Vec<CompiledNode>, ctx: &DataContextStack<'a>, cfg: &EvaluationConfig, ops: &Vec<(String, O)>) -> (r: Result<
    DataValue,
    Error,
>)
    ensures
        result_view(r) == (if is_and {
            eval_and(nodes_view(args@), 0, frames_view(ctx.frames()), ctx.root()@, *cfg, ops_view(ops@))
        } else {
            eval_or(nodes_view(args@), 0, frames_view(ctx.frames()), ctx.root()@, *cfg, ops_view(ops@))
        }),
    decreases args, 1nat,
{
    let ghost nv = nodes_view(args@);
    let ghost fr = frames_view(ctx.frames());
    let ghost rt = ctx.root()@;
    let mut i: usize = 0;
    while i < args.len()
        invariant
            i <= args@.len(),
            nv == nodes_view(args@),
            fr == frames_view(ctx.frames()),
            rt == ctx.root()@,
            is_and ==> eval_and(nv, 0, fr, rt, *cfg, ops_view(ops@)) == eval_and(nv, i as nat, fr, rt, *cfg, ops_view(ops@)),
            !is_and ==> eval_or(nv, 0, fr, rt, *cfg, ops_view(ops@)) == eval_or(nv, i as nat, fr, rt, *cfg, ops_view(ops@)),
        decreases args@.len() - i,
    {
        proof {
            assert(decreases_to!(args => args@));
            assert(decreases_to!(args@ => args@[i as int]));
        }
        match eval_node(&args[i], ctx, cfg, ops) {
            Ok(v) => {
                let t = is_truthy(&v, cfg.truthy_evaluator);
                if i + 1 == args.len() || t != is_and {
                    return Ok(v);
                }
            },
            Err(e) => {
                return Err(e);
            },
        }
        i = i + 1;
    }
    Ok(DataValue::Null)
}

/// Loose equality of two values.
fn loose_eq(a: &DataValue, b: &DataValue) -> (r: bool)
    ensures
        r == loose_eq_spec(a@, b@),
{
    match (a, b) {
        (DataValue::Number(x), DataValue::String(s)) => match parse_i64(s.as_str()) {
            Some(y) => y == *x,
            None => false,
        },
        (DataValue::String(s), DataValue::Number(x)) => match parse_i64(s.as_str()) {
            Some(y) => y == *x,
            None => false,
        },
        (DataValue::Number(x), DataValue::Bool(p)) => *x == (if *p { 1 } else { 0 }),
        (DataValue::Bool(p), DataValue::Number(x)) => *x == (if *p { 1 } else { 0 }),
        _ => data_eq(a, b),
    }
}

/// An ordering comparison after numeric coercion.
fn compare(op: OpCode, a: &DataValue, b: &DataValue, cfg: &EvaluationConfig) -> (r: bool)
    ensures
        r == compare_spec(op, a@, b@, *cfg),
{
    match (try_coerce_to_integer_cfg(a, &cfg.numeric_coercion), try_coerce_to_integer_cfg(b, &cfg.numeric_coercion)) {
        (Some(x), Some(y)) => match op {
            OpCode::LessThan => x < y,
            OpCode::LessThanEqual => x <= y,
            OpCode::GreaterThan => x > y,
            _ => x >= y,
        },
        _ => false,
    }
}

/// The numeric operands of an arithmetic operator.
fn operands(vals: &Vec<DataValue>, cfg: &EvaluationConfig) -> (r: Result<Option<Vec<i64>>, Error>)
    ensures
        match r {
            Ok(Some(xs)) => operands_spec(values_view(vals@), 0, *cfg) == Ok::<Option<Seq<i64>>, EvalError>(
                Some(xs@),
            ),
            Ok(None) => operands_spec(values_view(vals@), 0, *cfg) == Ok::<Option<Seq<i64>>, EvalError>(None),
            Err(e) => operands_spec(values_view(vals@), 0, *cfg) == Err::<Option<Seq<i64>>, EvalError>(
                error_view(e.kind),
            ),
        },
{
    let ghost vv = values_view(vals@);
    let mut xs: Vec<i64> = Vec::new();
    let mut i: usize = 0;
    assert(xs@ + Seq::<i64>::empty() =~= xs@);
    while i < vals.len()
        invariant
            i <= vals@.len(),
            vv == values_view(vals@),
            operands_spec(vv, 0, *cfg) == prepend_num(xs@, operands_spec(vv, i as nat, *cfg)),
        decreases vals@.len() - i,
    {
        match try_coerce_to_integer_cfg(&vals[i], &cfg.numeric_coercion) {
            Some(x) => {
                let ghost before = xs@;
                xs.push(x);
                proof {
                    match operands_spec(vv, (i + 1) as nat, *cfg) {
                        Ok(Some(t)) => {
                            assert(before + (seq![x] + t) =~= before.push(x) + t);
                        },
                        _ => {},
                    }
                }
            },
            None => match cfg.arithmetic_nan_handling {
                NanHandling::ThrowError => {
                    return Err(nan_error());
                },
                NanHandling::IgnoreValue => {},
                NanHandling::CoerceToZero => {
                    let ghost before = xs@;
                    xs.push(0);
                    proof {
                        match operands_spec(vv, (i + 1) as nat, *cfg) {
                            Ok(Some(t)) => {
                                assert(before + (seq![0i64] + t) =~= before.push(0) + t);
                            },
                            _ => {},
                        }
                    }
                },
                NanHandling::ReturnNull => {
                    return Ok(None);
                },
            },
        }
        i = i + 1;
    }
    assert(xs@ + Seq::<i64>::empty() =~= xs@);
    Ok(Some(xs))
}

/// The overflow error.
fn overflow_error() -> (r: Error)
    ensures
        error_view(r.kind) == overflow(),
{
    Error::arithmetic_error(String::from_str("Overflow"))
}

/// A `substr` bound.
fn bound(vals: &Vec<DataValue>, i: usize, cfg: &EvaluationConfig) -> (r: Option<i64>)
    ensures
        match r {
            Some(x) => bound_of(values_view(vals@), i as int, *cfg) == Some(x as int),
            None => bound_of(values_view(vals@), i as int, *cfg) is None,
        },
{
    if i < vals.len() {
        try_coerce_to_integer_cfg(&vals[i], &cfg.numeric_coercion)
    } else {
        None
    }
}

/// The clipped bound of a slice.
fn clip(x: i64, n: usize) -> (r: usize)
    ensures
        r as int == clip_bound(x as int, n as int),
        r <= n,
{
    let ni = n as i128;
    let xi = x as i128;
    let c: i128 = if xi < 0 {
        if ni + xi < 0 { 0 } else { ni + xi }
    } else if xi > ni {
        ni
    } else {
        xi
    };
    c as usize
}

/// The start and end of a slice over `n` items.
fn slice_bounds(n: usize, start: Option<i64>, end: Option<i64>) -> (r: (usize, usize))
    ensures
        (r.0 as int, r.1 as int) == slice_range(
            n as int,
            match start {
                Some(x) => Some(x as int),
                None => None,
            },
            match end {
                Some(x) => Some(x as int),
                None => None,
            },
        ),
        r.0 <= r.1 <= n,
{
    let b = match start {
        Some(x) => clip(x, n),
        None => 0,
    };
    let e0 = match end {
        Some(x) => clip(x, n),
        None => n,
    };
    (b, if e0 < b { b } else { e0 })
}

/// `slice` of a value.
fn slice_value(v: &DataValue, start: Option<i64>, end: Option<i64>) -> (r: DataValue)
    ensures
        r@ == slice_spec(
            v@,
            match start {
                Some(x) => Some(x as int),
                None => None,
            },
            match end {
                Some(x) => Some(x as int),
                None => None,
            },
        ),
{
    match v {
        DataValue::Array(xs) => {
            let ghost xv = values_view(xs@);
            assert(v@ == JsonValue::Array(xv));
            let (b, e) = slice_bounds(xs.len(), start, end);
            let mut out: Vec<DataValue> = Vec::new();
            let mut i: usize = b;
            while i < e
                invariant
                    b <= i <= e <= xs@.len(),
                    xv == values_view(xs@),
                    values_view(out@) == xv.subrange(b as int, i as int),
                decreases e - i,
            {
                proof {
                    lemma_values_view(xs@);
                }
                let ghost before = values_view(out@);
                out.push(xs[i].copy());
                assert(values_view(out@) =~= before.push(xv[i as int]));
                assert(xv.subrange(b as int, i as int + 1) =~= xv.subrange(b as int, i as int).push(xv[i as int]));
                i = i + 1;
            }
            DataValue::Array(out)
        },
        DataValue::String(t) => {
            let (b, e) = slice_bounds(t.as_str().unicode_len(), start, end);
            DataValue::String(String::from_str(t.as_str().substring_char(b, e)))
        },
        _ => DataValue::Null,
    }
}

/// `substr` over evaluated arguments.
fn substr(vals: &Vec<DataValue>, cfg: &EvaluationConfig) -> (r: DataValue)
    ensures
        r@ == JsonValue::Str(
            substr_spec(
                display_text(first_or_null(values_view(vals@))),
                match bound_of(values_view(vals@), 1, *cfg) {
                    Some(b) => b,
                    None => 0,
                },
                bound_of(values_view(vals@), 2, *cfg),
            ),
        ),
{
    let text = if vals.len() > 0 {
        to_display_string(&vals[0])
    } else {
        String::new()
    };
    let t = text.as_str();
    let n = t.unicode_len();
    let ni = n as i128;
    let start: i128 = match bound(vals, 1, cfg) {
        Some(b) => b as i128,
        None => 0,
    };
    let b: i128 = if start < 0 {
        if ni + start < 0 { 0 } else { ni + start }
    } else if start > ni {
        ni
    } else {
        start
    };
    let e: i128 = match bound(vals, 2, cfg) {
        None => ni,
        Some(l) => {
            let l = l as i128;
            if l >= 0 {
                if b + l > ni { ni } else { b + l }
            } else if ni + l < b {
                b
            } else {
                ni + l
            }
        },
    };
    let piece = t.substring_char(b as usize, e as usize);
    DataValue::String(String::from_str(piece))
}

/// `/` over its numeric operands.
fn divide(xs: &Vec<i64>, cfg: &EvaluationConfig) -> (r: Result<DataValue, Error>)
    ensures
        result_view(r) == divide_spec(xs@, *cfg),
{
    if xs.len() != 2 {
        return Err(invalid_args());
    }
    let a = xs[0];
    let b = xs[1];
    if b == 0 {
        return match cfg.division_by_zero {
            DivisionByZeroHandling::ThrowError => Err(Error::arithmetic_error(String::from_str("Division by zero"))),
            DivisionByZeroHandling::ReturnBounds => Ok(
                if a > 0 {
                    DataValue::Number(i64::MAX)
                } else if a < 0 {
                    DataValue::Number(i64::MIN)
                } else {
                    DataValue::Null
                },
            ),
            _ => Ok(DataValue::Null),
        };
    }
    let ma: u128 = if a < 0 { (-(a as i128)) as u128 } else { a as u128 };
    let mb: u128 = if b < 0 { (-(b as i128)) as u128 } else { b as u128 };
    if ma % mb != 0 {
        return Err(Error::arithmetic_error(String::from_str("Non-integer result")));
    }
    let q: u128 = ma / mb;
    assert(q <= ma) by (nonlinear_arith)
        requires
            q == ma / mb,
            mb >= 1,
    ;
    let wide: i128 = if (a < 0) == (b < 0) { q as i128 } else { -(q as i128) };
    if wide > i64::MAX as i128 {
        return Err(overflow_error());
    }
    Ok(DataValue::Number(wide as i64))
}

/// `%` over its numeric operands.
fn modulo(xs: &Vec<i64>, cfg: &EvaluationConfig) -> (r: Result<DataValue, Error>)
    ensures
        result_view(r) == modulo_spec(xs@, *cfg),
{
    if xs.len() != 2 {
        return Err(invalid_args());
    }
    let a = xs[0];
    let b = xs[1];
    if b == 0 {
        return match cfg.division_by_zero {
            DivisionByZeroHandling::ThrowError => Err(Error::arithmetic_error(String::from_str("Division by zero"))),
            _ => Ok(DataValue::Null),
        };
    }
    let ma: u128 = if a < 0 { (-(a as i128)) as u128 } else { a as u128 };
    let mb: u128 = if b < 0 { (-(b as i128)) as u128 } else { b as u128 };
    let rem: u128 = ma % mb;
    assert(rem < mb);
    assert(mb <= 0x8000_0000_0000_0000);
    let r: i64 = if a < 0 { -(rem as i64) } else { rem as i64 };
    Ok(DataValue::Number(r))
}

/// An arithmetic operator over its numeric operands.
fn arith(op: OpCode, xs: &Vec<i64>) -> (r: Result<DataValue, Error>)
    requires
        op == OpCode::Add || op == OpCode::Multiply || op == OpCode::Subtract || op == OpCode::Min || op
            == OpCode::Max || op == OpCode::Abs || op == OpCode::Ceil || op == OpCode::Floor,
    ensures
        result_view(r) == arith_spec(op, xs@),
{
    if op == OpCode::Add || op == OpCode::Multiply {
        let is_add = op == OpCode::Add;
        let mut acc: i64 = if is_add { 0 } else { 1 };
        let mut i: usize = 0;
        while i < xs.len()
            invariant
                i <= xs@.len(),
                is_add == (op == OpCode::Add),
                op == OpCode::Add || op == OpCode::Multiply,
                is_add ==> checked_sum(0, xs@, 0) == checked_sum(acc as int, xs@, i as nat),
                !is_add ==> checked_product(1, xs@, 0) == checked_product(acc as int, xs@, i as nat),
            decreases xs@.len() - i,
        {
            let x = xs[i];
            let wide: i128 = if is_add {
                acc as i128 + x as i128
            } else {
                assert((acc as int) * (x as int) <= 0x8000_0000_0000_0000 * 0x8000_0000_0000_0000) by (nonlinear_arith)
                    requires
                        i64::MIN <= acc <= i64::MAX,
                        i64::MIN <= x <= i64::MAX,
                ;
                assert((acc as int) * (x as int) >= -0x8000_0000_0000_0000 * 0x8000_0000_0000_0000) by (nonlinear_arith)
                    requires
                        i64::MIN <= acc <= i64::MAX,
                        i64::MIN <= x <= i64::MAX,
                ;
                acc as i128 * x as i128
            };
            assert(is_add ==> wide as int == acc as int + x as int);
            assert(!is_add ==> wide as int == acc as int * x as int);
            assert(xs@[i as int] == x);
            if wide < i64::MIN as i128 || wide > i64::MAX as i128 {
                proof {
                    assert(!fits(wide as int));
                    if is_add {
                        assert(checked_sum(acc as int, xs@, i as nat) is None);
                    } else {
                        assert(checked_product(acc as int, xs@, i as nat) is None);
                    }
                }
                return Err(overflow_error());
            }
            acc = wide as i64;
            i = i + 1;
        }
        Ok(DataValue::Number(acc))
    } else if op == OpCode::Ceil || op == OpCode::Floor {
        if xs.len() != 1 {
            return Err(invalid_args());
        }
        Ok(DataValue::Number(xs[0]))
    } else if op == OpCode::Abs {
        if xs.len() != 1 {
            return Err(invalid_args());
        }
        let x = xs[0];
        if x >= 0 {
            Ok(DataValue::Number(x))
        } else if x == i64::MIN {
            Err(overflow_error())
        } else {
            Ok(DataValue::Number(-x))
        }
    } else if op == OpCode::Subtract {
        if xs.len() == 1 {
            if xs[0] == i64::MIN {
                return Err(overflow_error());
            }
            Ok(DataValue::Number(-xs[0]))
        } else if xs.len() == 2 {
            let wide: i128 = xs[0] as i128 - xs[1] as i128;
            if wide < i64::MIN as i128 || wide > i64::MAX as i128 {
                return Err(overflow_error());
            }
            Ok(DataValue::Number(wide as i64))
        } else {
            Err(invalid_args())
        }
    } else {
        if xs.len() == 0 {
            return Ok(DataValue::Null);
        }
        let is_max = op == OpCode::Max;
        let mut acc: i64 = xs[0];
        let mut i: usize = 1;
        while i < xs.len()
            invariant
                1 <= i <= xs@.len(),
                is_max == (op == OpCode::Max),
                extreme(is_max, xs@[0] as int, xs@, 1) == extreme(is_max, acc as int, xs@, i as nat),
            decreases xs@.len() - i,
        {
            let x = xs[i];
            if (is_max && x > acc) || (!is_max && x < acc) {
                acc = x;
            }
            i = i + 1;
        }
        Ok(DataValue::Number(acc))
    }
}

/// Appends the elements `merge` takes from one argument.
fn push_flat(v: &DataValue, out: &mut Vec<DataValue>)
    ensures
        values_view(final(out)@) == values_view(old(out)@) + flat_items(v@),
{
    let ghost start = values_view(out@);
    match v {
        DataValue::Array(xs) => {
            let ghost xv = values_view(xs@);
            assert(v@ == JsonValue::Array(xv));
            let mut i: usize = 0;
            assert(start + xv.take(0) =~= start);
            while i < xs.len()
                invariant
                    i <= xs@.len(),
                    xv == values_view(xs@),
                    values_view(out@) == start + xv.take(i as int),
                decreases xs@.len() - i,
            {
                proof {
                    lemma_values_view(xs@);
                }
                let ghost before = values_view(out@);
                let item = xs[i].copy();
                out.push(item);
                assert(values_view(out@) =~= before.push(xv[i as int]));
                assert(start + xv.take(i as int + 1) =~= (start + xv.take(i as int)).push(xv[i as int]));
                i = i + 1;
            }
            assert(xv.take(xs@.len() as int) =~= xv);
        },
        _ => {
            let item = v.copy();
            out.push(item);
            assert(values_view(out@) =~= start + seq![v@]);
        },
    }
}

/// `in` over two evaluated arguments.
fn value_in(a: &DataValue, b: &DataValue) -> (r: bool)
    ensures
        r == in_spec(a@, b@),
{
    match (a, b) {
        (DataValue::String(n), DataValue::String(h)) => contains_text(h.as_str(), n.as_str()),
        (_, DataValue::Array(xs)) => {
            let ghost xv = values_view(xs@);
            assert(b@ == JsonValue::Array(xv));
            let mut i: usize = 0;
            while i < xs.len()
                invariant
                    i <= xs@.len(),
                    xv == values_view(xs@),
                    b@ == JsonValue::Array(xv),
                    forall|j: int| 0 <= j < i ==> xv[j] != a@,
                decreases xs@.len() - i,
            {
                proof {
                    lemma_values_view(xs@);
                }
                if data_eq(&xs[i], a) {
                    assert(xv[i as int] == a@);
                    assert(xv.contains(a@));
                    assert(in_spec(a@, b@));
                    return true;
                }
                i = i + 1;
            }
            proof {
                if xv.contains(a@) {
                    let j = choose|j: int| 0 <= j < xv.len() && xv[j] == a@;
                    lemma_values_view(xs@);
                    assert(xv[j] != a@);
                }
            }
            false
        },
        _ => false,
    }
}

/// A strict operator applied to its evaluated arguments.
pub fn apply_op(op: OpCode, vals: &Vec<DataValue>, cfg: &EvaluationConfig) -> (r: Result<DataValue, Error>)
    requires
        is_strict_op(op),
    ensures
        result_view(r) == apply_spec(op, values_view(vals@), *cfg),
{
    let ghost vv = values_view(vals@);
    match op {
        OpCode::Not | OpCode::DoubleNot => {
            let t = if vals.len() > 0 {
                is_truthy(&vals[0], cfg.truthy_evaluator)
            } else {
                is_truthy(&DataValue::Null, cfg.truthy_evaluator)
            };
            Ok(DataValue::Bool(if op == OpCode::Not { !t } else { t }))
        },
        OpCode::Cat => {
            let mut buf = String::new();
            let mut i: usize = 0;
            while i < vals.len()
                invariant
                    i <= vals@.len(),
                    vv == values_view(vals@),
                    concat_spec(vv, 0) == buf@ + concat_spec(vv, i as nat),
                decreases vals@.len() - i,
            {
                let ghost before = buf@;
                let piece = to_display_string(&vals[i]);
                push_str(&mut buf, piece.as_str());
                assert(before + (piece@ + concat_spec(vv, (i + 1) as nat)) =~= buf@ + concat_spec(
                    vv,
                    (i + 1) as nat,
                ));
                i = i + 1;
            }
            assert(buf@ + Seq::<char>::empty() =~= buf@);
            Ok(DataValue::String(buf))
        },
        OpCode::Merge => {
            let mut out: Vec<DataValue> = Vec::new();
            let mut i: usize = 0;
            assert(values_view(out@) + merge_spec(vv, 0) =~= merge_spec(vv, 0));
            while i < vals.len()
                invariant
                    i <= vals@.len(),
                    vv == values_view(vals@),
                    merge_spec(vv, 0) == values_view(out@) + merge_spec(vv, i as nat),
                decreases vals@.len() - i,
            {
                let ghost before = values_view(out@);
                push_flat(&vals[i], &mut out);
                assert(before + (flat_items(vv[i as int]) + merge_spec(vv, (i + 1) as nat)) =~= values_view(out@)
                    + merge_spec(vv, (i + 1) as nat));
                i = i + 1;
            }
            assert(values_view(out@) + Seq::<JsonValue>::empty() =~= values_view(out@));
            Ok(DataValue::Array(out))
        },
        OpCode::Throw => {
            let first = if vals.len() > 0 {
                vals[0].copy()
            } else {
                DataValue::Null
            };
            Err(thrown_error(first))
        },
        OpCode::StartsWith | OpCode::EndsWith => {
            if vals.len() < 2 {
                return Err(invalid_args());
            }
            let r = match (&vals[0], &vals[1]) {
                (DataValue::String(a), DataValue::String(b)) => if op == OpCode::StartsWith {
                    strip_prefix(a.as_str(), b.as_str()).is_some()
                } else {
                    ends_with(a.as_str(), b.as_str())
                },
                _ => false,
            };
            Ok(DataValue::Bool(r))
        },
        OpCode::Substr => Ok(substr(vals, cfg)),
        OpCode::Upper | OpCode::Lower | OpCode::Trim => {
            let text = if vals.len() > 0 {
                to_display_string(&vals[0])
            } else {
                String::new()
            };
            let out = if op == OpCode::Upper {
                to_upper(text.as_str())
            } else if op == OpCode::Lower {
                to_lower(text.as_str())
            } else {
                trim_chars(text.as_str())
            };
            Ok(DataValue::String(out))
        },
        OpCode::Split => {
            if vals.len() < 2 {
                return Err(invalid_args());
            }
            let text = to_display_string(&vals[0]);
            let sep = to_display_string(&vals[1]);
            let pieces = split_chars(text.as_str(), sep.as_str());
            let ghost pv = pieces@.map_values(|p: String| p@);
            let mut out: Vec<DataValue> = Vec::new();
            let mut i: usize = 0;
            while i < pieces.len()
                invariant
                    i <= pieces@.len(),
                    pv == pieces@.map_values(|p: String| p@),
                    values_view(out@) == pv.take(i as int).map_values(|p: Seq<char>| JsonValue::Str(p)),
                decreases pieces@.len() - i,
            {
                let ghost before = values_view(out@);
                out.push(DataValue::String(pieces[i].clone()));
                assert(values_view(out@) =~= before.push(JsonValue::Str(pv[i as int])));
                assert(pv.take(i as int + 1).map_values(|p: Seq<char>| JsonValue::Str(p)) =~= pv.take(i as int).map_values(
                    |p: Seq<char>| JsonValue::Str(p),
                ).push(JsonValue::Str(pv[i as int])));
                i = i + 1;
            }
            assert(pv.take(pieces@.len() as int) =~= pv);
            Ok(DataValue::Array(out))
        },
        OpCode::Slice => {
            let first = if vals.len() > 0 {
                vals[0].copy()
            } else {
                DataValue::Null
            };
            let start = bound(vals, 1, cfg);
            let end = bound(vals, 2, cfg);
            Ok(slice_value(&first, start, end))
        },
        OpCode::Type | OpCode::Length => {
            let first = if vals.len() > 0 {
                vals[0].copy()
            } else {
                DataValue::Null
            };
            if op == OpCode::Type {
                Ok(type_of(&first))
            } else {
                length_of(&first)
            }
        },
        OpCode::In => {
            if vals.len() < 2 {
                return Err(invalid_args());
            }
            Ok(DataValue::Bool(value_in(&vals[0], &vals[1])))
        },
        OpCode::StrictEquals | OpCode::StrictNotEquals | OpCode::Equals | OpCode::NotEquals => {
            if vals.len() < 2 {
                return Err(invalid_args());
            }
            let same = if op == OpCode::StrictEquals || op == OpCode::StrictNotEquals {
                data_eq(&vals[0], &vals[1])
            } else {
                loose_eq(&vals[0], &vals[1])
            };
            Ok(DataValue::Bool(if op == OpCode::StrictEquals || op == OpCode::Equals { same } else { !same }))
        },
        OpCode::LessThan | OpCode::LessThanEqual | OpCode::GreaterThan | OpCode::GreaterThanEqual => {
            if vals.len() < 2 {
                return Err(invalid_args());
            }
            if vals.len() == 3 && (op == OpCode::LessThan || op == OpCode::LessThanEqual) {
                let a = compare(op, &vals[0], &vals[1], cfg);
                let b = compare(op, &vals[1], &vals[2], cfg);
                return Ok(DataValue::Bool(a && b));
            }
            Ok(DataValue::Bool(compare(op, &vals[0], &vals[1], cfg)))
        },
        OpCode::Preserve => {
            if vals.len() == 1 {
                Ok(vals[0].copy())
            } else {
                Ok(DataValue::Array(crate::value::copy_values(vals)))
            }
        },
        OpCode::Sort => {
            if vals.len() == 0 {
                return Err(invalid_args());
            }
            match &vals[0] {
                DataValue::Array(xs) => {
                    assert(vals@[0]@ == JsonValue::Array(values_view(xs@)));
                    if all_numbers_or_strings(xs) {
                        Ok(DataValue::Array(sort_values(xs)))
                    } else {
                        Err(invalid_args())
                    }
                },
                _ => Err(invalid_args()),
            }
        },
        OpCode::Divide => match operands(vals, cfg) {
            Ok(Some(xs)) => divide(&xs, cfg),
            Ok(None) => Ok(DataValue::Null),
            Err(e) => Err(e),
        },
        OpCode::Modulo => match operands(vals, cfg) {
            Ok(Some(xs)) => modulo(&xs, cfg),
            Ok(None) => Ok(DataValue::Null),
            Err(e) => Err(e),
        },
        _ => match operands(vals, cfg) {
            Ok(Some(xs)) => arith(op, &xs),
            Ok(None) => Ok(DataValue::Null),
            Err(e) => Err(e),
        },
    }
}

/// Structural equality of two values.
pub fn data_eq(a: &DataValue, b: &DataValue) -> (r: bool)
    ensures
        r == (a@ == b@),
    decreases a, 0nat,
{
    match (a, b) {
        (DataValue::Null, DataValue::Null) => true,
        (DataValue::Bool(x), DataValue::Bool(y)) => *x == *y,
        (DataValue::Number(x), DataValue::Number(y)) => *x == *y,
        (DataValue::String(x), DataValue::String(y)) => key_eq(x.as_str(), y.as_str()),
        (DataValue::Array(xs), DataValue::Array(ys)) => {
            assert(a@ == JsonValue::Array(values_view(xs@)));
            assert(b@ == JsonValue::Array(values_view(ys@)));
            items_eq(xs, ys)
        },
        (DataValue::Object(ps), DataValue::Object(qs)) => {
            assert(a@ == JsonValue::Object(pairs_view(ps@)));
            assert(b@ == JsonValue::Object(pairs_view(qs@)));
            entries_eq(ps, qs)
        },
        _ => false,
    }
}

/// Elementwise equality of two value lists.
fn items_eq(xs: &Vec<DataValue>, ys: &Vec<DataValue>) -> (r: bool)
    ensures
        r == (values_view(xs@) == values_view(ys@)),
    decreases xs, 1nat,
{
    if xs.len() != ys.len() {
        assert(values_view(xs@).len() != values_view(ys@).len());
        return false;
    }
    let mut i: usize = 0;
    while i < xs.len()
        invariant
            i <= xs@.len(),
            xs@.len() == ys@.len(),
            forall|j: int| 0 <= j < i ==> xs@[j]@ == ys@[j]@,
        decreases xs@.len() - i,
    {
        proof {
            assert(decreases_to!(xs => xs@));
            assert(decreases_to!(xs@ => xs@[i as int]));
        }
        if !data_eq(&xs[i], &ys[i]) {
            proof {
                lemma_values_view(xs@);
                lemma_values_view(ys@);
            }
            assert(values_view(xs@)[i as int] != values_view(ys@)[i as int]);
            return false;
        }
        i = i + 1;
    }
    assert(values_view(xs@) =~= values_view(ys@));
    true
}

/// Entrywise equality of two entry lists.
fn entries_eq(ps: &Vec<(String, DataValue)>, qs: &Vec<(String, DataValue)>) -> (r: bool)
    ensures
        r == (pairs_view(ps@) == pairs_view(qs@)),
    decreases ps, 1nat,
{
    if ps.len() != qs.len() {
        assert(pairs_view(ps@).len() != pairs_view(qs@).len());
        return false;
    }
    let mut i: usize = 0;
    while i < ps.len()
        invariant
            i <= ps@.len(),
            ps@.len() == qs@.len(),
            forall|j: int| 0 <= j < i ==> ps@[j].0@ == qs@[j].0@ && ps@[j].1@ == qs@[j].1@,
        decreases ps@.len() - i,
    {
        proof {
            assert(decreases_to!(ps => ps@));
            assert(decreases_to!(ps@ => ps@[i as int]));
            assert(decreases_to!(ps@[i as int] => ps@[i as int].1));
        }
        if !key_eq(ps[i].0.as_str(), qs[i].0.as_str()) {
            proof {
                lemma_pairs_view(ps@);
                lemma_pairs_view(qs@);
            }
            assert(pairs_view(ps@)[i as int] != pairs_view(qs@)[i as int]);
            return false;
        }
        if !data_eq(&ps[i].1, &qs[i].1) {
            proof {
                lemma_pairs_view(ps@);
                lemma_pairs_view(qs@);
            }
            assert(pairs_view(ps@)[i as int] != pairs_view(qs@)[i as int]);
            return false;
        }
        i = i + 1;
    }
    assert(pairs_view(ps@) =~= pairs_view(qs@));
    true
}

/// Lexicographic order is total.
proof fn lemma_lex_total(a: Seq<char>, b: Seq<char>, i: nat)
    ensures
        lex_le(a, b, i) || lex_le(b, a, i),
    decreases a.len() - i,
{
    if i < a.len() && i < b.len() {
        if a[i as int] == b[i as int] {
            lemma_lex_total(a, b, i + 1);
        }
    }
}

/// Lexicographic order is transitive.
proof fn lemma_lex_trans(a: Seq<char>, b: Seq<char>, c: Seq<char>, i: nat)
    requires
        lex_le(a, b, i),
        lex_le(b, c, i),
    ensures
        lex_le(a, c, i),
    decreases a.len() - i,
{
    if i < a.len() && a[i as int] == b[i as int] && b[i as int] == c[i as int] {
        lemma_lex_trans(a, b, c, i + 1);
    }
}

/// Every element is a number (`num`) or every element is a string.
pub open spec fn all_of_kind(s: Seq<JsonValue>, num: bool) -> bool {
    forall|k: int| 0 <= k < s.len() ==> (if num { #[trigger] s[k] is Number } else { s[k] is Str })
}

/// A value of the kind.
pub open spec fn of_kind(v: JsonValue, num: bool) -> bool {
    if num { v is Number } else { v is Str }
}

/// The `sort` order is total and transitive on values of one kind.
proof fn lemma_key_order(a: JsonValue, b: JsonValue, c: JsonValue, num: bool)
    requires
        of_kind(a, num),
        of_kind(b, num),
        of_kind(c, num),
    ensures
        key_le(a, b) || key_le(b, a),
        key_le(a, b) && key_le(b, c) ==> key_le(a, c),
{
    if !num {
        lemma_lex_total(a->Str_0, b->Str_0, 0);
        if key_le(a, b) && key_le(b, c) {
            lemma_lex_trans(a->Str_0, b->Str_0, c->Str_0, 0);
        }
    }
}

/// The first position from `i` whose element `x` is not above.
pub open spec fn first_not_below(s: Seq<JsonValue>, x: JsonValue, i: nat) -> nat
    decreases s.len() - i,
{
    if i >= s.len() {
        s.len()
    } else if key_le(x, s[i as int]) {
        i
    } else {
        first_not_below(s, x, i + 1)
    }
}

proof fn lemma_first_not_below(s: Seq<JsonValue>, x: JsonValue, i: nat)
    requires
        i <= s.len(),
    ensures
        i <= first_not_below(s, x, i) <= s.len(),
        forall|k: int| i <= k < first_not_below(s, x, i) ==> !key_le(x, #[trigger] s[k]),
        first_not_below(s, x, i) < s.len() ==> key_le(x, s[first_not_below(s, x, i) as int]),
    decreases s.len() - i,
{
    if i < s.len() && !key_le(x, s[i as int]) {
        lemma_first_not_below(s, x, i + 1);
    }
}

/// Ascending order under the `sort` order.
pub open spec fn sorted_by_key(s: Seq<JsonValue>) -> bool {
    forall|a: int, b: int| 0 <= a < b < s.len() ==> key_le(#[trigger] s[a], #[trigger] s[b])
}

/// Inserting a value of the list's kind into a sorted list keeps it sorted
/// and adds exactly that value.
proof fn lemma_insert_sorted(s: Seq<JsonValue>, x: JsonValue, num: bool)
    requires
        sorted_by_key(s),
        all_of_kind(s, num),
        of_kind(x, num),
    ensures
        sorted_by_key(insert_sorted(s, x)),
        all_of_kind(insert_sorted(s, x), num),
        insert_sorted(s, x).to_multiset() == s.to_multiset().insert(x),
{
    lemma_first_not_below(s, x, 0);
    let j = first_not_below(s, x, 0) as int;
    lemma_insert_sorted_at(s, x, j);
    let r = insert_sorted(s, x);
    assert(r =~= s.insert(j, x));
    broadcast use vstd::seq_lib::to_multiset_insert;
    assert forall|k: int| 0 <= k < r.len() implies of_kind(#[trigger] r[k], num) by {
        if k > j {
            assert(r[k] == s[k - 1]);
        } else if k < j {
            assert(r[k] == s[k]);
        }
    }
    assert forall|a: int, b: int| 0 <= a < b < r.len() implies key_le(#[trigger] r[a], #[trigger] r[b]) by {
        if b < j {
            assert(r[a] == s[a] && r[b] == s[b]);
        } else if b == j {
            assert(r[a] == s[a]);
            assert(!key_le(x, s[a]));
            lemma_key_order(x, s[a], x, num);
        } else if a < j {
            assert(r[a] == s[a] && r[b] == s[b - 1]);
        } else if a == j {
            assert(r[b] == s[b - 1]);
            assert(key_le(x, s[j]));
            if b - 1 > j {
                assert(key_le(s[j], s[b - 1]));
                lemma_key_order(x, s[j], s[b - 1], num);
            }
        } else {
            assert(r[a] == s[a - 1] && r[b] == s[b - 1]);
        }
    }
}

/// `sort` gives its elements in ascending order: for an array of numbers
/// or of strings, the result is sorted under the `sort` order and holds
/// the same elements, each as often.
pub proof fn law_sort_is_sorted_permutation(xs: Seq<JsonValue>)
    requires
        sortable(xs),
    ensures
        sorted_by_key(sort_spec(xs)),
        sort_spec(xs).to_multiset() == xs.to_multiset(),
{
    let num = forall|i: int| 0 <= i < xs.len() ==> #[trigger] xs[i] is Number;
    assert(all_of_kind(xs, num));
    lemma_sort_kind(xs, num);
}

/// `sort_spec` over a list of one kind: sorted, of that kind, the same
/// elements.
pub proof fn lemma_sort_kind(xs: Seq<JsonValue>, num: bool)
    requires
        all_of_kind(xs, num),
    ensures
        sorted_by_key(sort_spec(xs)),
        all_of_kind(sort_spec(xs), num),
        sort_spec(xs).to_multiset() == xs.to_multiset(),
    decreases xs.len(),
{
    broadcast use vstd::seq_lib::to_multiset_build;
    if xs.len() == 0 {
        assert(sort_spec(xs) =~= Seq::<JsonValue>::empty());
        assert(xs =~= Seq::<JsonValue>::empty());
    } else {
        let p = xs.drop_last();
        lemma_sort_kind(p, num);
        assert(of_kind(xs.last(), num));
        lemma_insert_sorted(sort_spec(p), xs.last(), num);
        assert(p.push(xs.last()) =~= xs);
    }
}

} // verus!
