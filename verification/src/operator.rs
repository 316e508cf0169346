//! Compile-time specialisations of operator invocations whose arguments are
//! literals: `var`, `val` and `exists` become variable-access nodes with
//! their paths parsed, `missing` and `missing_some` get their literal paths
//! parsed, `throw` of a literal string gets its error payload built, and
//! `and` / `or` / `if` over a non-array argument become a marker node.

use vstd::prelude::*;
use vstd::string::StrSliceExecFns;
use regex::Regex;
use crate::node::{
    CompiledNode, MetadataHint, MissingArg, MissingArgView, MissingMin, MissingMinView,
    MissingPaths, MissingPathsView, NodeView, ReduceHint, lemma_nodes_view,
    lemma_missing_args_view, missing_args_view, node_view, nodes_view, opt_node_view, static_paths_view,
};
use crate::opcode::OpCode;
use crate::path::{
    PathSegment, SegmentView, key_eq, parse_path_segments, parse_path_spec, segment_of,
    segments_view,
};
use crate::text::{format_i64, int_text, parse_usize};
use crate::value::{DataValue, JsonValue, lemma_pairs_view, lemma_values_view, pairs_view, values_view};

verus! {

broadcast use {
    vstd::string::group_string_axioms,
    lemma_values_view,
    lemma_pairs_view,
    lemma_nodes_view,
    lemma_missing_args_view,
};

/// `s` with `prefix` removed, when `s` starts with `prefix`.
pub fn strip_prefix<'s>(s: &'s str, prefix: &str) -> (r: Option<&'s str>)
    ensures
        match r {
            Some(rest) => prefix@.is_prefix_of(s@) && rest@ == s@.skip(prefix@.len() as int),
            None => !prefix@.is_prefix_of(s@),
        },
{
    let n = s.unicode_len();
    let k = prefix.unicode_len();
    if k > n {
        return None;
    }
    let head = s.substring_char(0, k);
    if key_eq(head, prefix) {
        let rest = s.substring_char(k, n);
        assert(rest@ =~= s@.skip(prefix@.len() as int));
        Some(rest)
    } else {
        None
    }
}

/// A variable-access node with no default.
pub open spec fn var_view(scope_level: u32, segments: Seq<SegmentView>, reduce_hint: ReduceHint, metadata_hint: MetadataHint) -> NodeView {
    NodeView::Var { scope_level, segments, reduce_hint, metadata_hint, default_value: None }
}

/// How a `var` path compiles: `current` and `accumulator` (alone or as the
/// head of a dotted path) get a reduce hint and keep their head as a field
/// segment; any other path is split on dots.
pub open spec fn parse_var_path_spec(p: Seq<char>) -> (ReduceHint, Seq<SegmentView>) {
    if p == "current"@ {
        (ReduceHint::Current, seq![SegmentView::Field("current"@)])
    } else if p == "accumulator"@ {
        (ReduceHint::Accumulator, seq![SegmentView::Field("accumulator"@)])
    } else if "current."@.is_prefix_of(p) {
        (
            ReduceHint::CurrentPath,
            seq![SegmentView::Field("current"@)] + parse_path_spec(p.skip("current."@.len() as int)),
        )
    } else if "accumulator."@.is_prefix_of(p) {
        (
            ReduceHint::AccumulatorPath,
            seq![SegmentView::Field("accumulator"@)] + parse_path_spec(
                p.skip("accumulator."@.len() as int),
            ),
        )
    } else {
        (ReduceHint::NoHint, parse_path_spec(p))
    }
}

/// What `var` with literal arguments compiles to.
pub open spec fn try_var_spec(args: Seq<NodeView>) -> Option<NodeView> {
    if args.len() == 0 {
        Some(var_view(0, Seq::empty(), ReduceHint::NoHint, MetadataHint::NoHint))
    } else {
        let default_value = if args.len() > 1 {
            Some(Box::new(args[1]))
        } else {
            None
        };
        match args[0] {
            NodeView::Value(JsonValue::Str(s)) => Some(
                NodeView::Var {
                    scope_level: 0,
                    segments: parse_var_path_spec(s).1,
                    reduce_hint: parse_var_path_spec(s).0,
                    metadata_hint: MetadataHint::NoHint,
                    default_value,
                },
            ),
            NodeView::Value(JsonValue::Number(n)) => Some(
                NodeView::Var {
                    scope_level: 0,
                    segments: parse_path_spec(int_text(n)),
                    reduce_hint: ReduceHint::NoHint,
                    metadata_hint: MetadataHint::NoHint,
                    default_value,
                },
            ),
            _ => None,
        }
    }
}

/// The segment a literal `val` argument denotes: a string is one key (or
/// key-or-index when it reads as an index), a non-negative integer an index.
pub open spec fn val_segment_spec(a: NodeView) -> Option<SegmentView> {
    match a {
        NodeView::Value(JsonValue::Str(s)) => Some(segment_of(s)),
        NodeView::Value(JsonValue::Number(n)) => if n >= 0 {
            Some(SegmentView::Index(n as usize))
        } else {
            None
        },
        _ => None,
    }
}

/// The segments of a run of literal `val` arguments, if all are literal.
pub open spec fn val_segments_spec(args: Seq<NodeView>) -> Option<Seq<SegmentView>>
    decreases args.len(),
{
    if args.len() == 0 {
        Some(Seq::empty())
    } else {
        match (val_segments_spec(args.drop_last()), val_segment_spec(args.last())) {
            (Some(p), Some(s)) => Some(p.push(s)),
            _ => None,
        }
    }
}

/// The scope level a `[[level], ...]` first argument carries.
pub open spec fn val_level_spec(a: NodeView) -> Option<int> {
    match a {
        NodeView::Value(JsonValue::Array(items)) => if items.len() > 0 {
            match items[0] {
                JsonValue::Number(l) => Some(l),
                _ => None,
            }
        } else {
            None
        },
        _ => None,
    }
}

/// The metadata a scoped `val` reads: `index` or `key` as its only path
/// argument.
pub open spec fn metadata_hint_spec(args: Seq<NodeView>) -> MetadataHint {
    if args.len() == 2 {
        match args[1] {
            NodeView::Value(JsonValue::Str(s)) => if s == "index"@ {
                MetadataHint::Index
            } else if s == "key"@ {
                MetadataHint::Key
            } else {
                MetadataHint::NoHint
            },
            _ => MetadataHint::NoHint,
        }
    } else {
        MetadataHint::NoHint
    }
}

/// What a single-argument `val` compiles to.
pub open spec fn val_single_spec(a: NodeView) -> Option<NodeView> {
    match a {
        NodeView::Value(JsonValue::Str(s)) => if s.len() == 0 {
            None
        } else {
            Some(
                var_view(
                    0,
                    seq![segment_of(s)],
                    if s == "current"@ {
                        ReduceHint::Current
                    } else if s == "accumulator"@ {
                        ReduceHint::Accumulator
                    } else {
                        ReduceHint::NoHint
                    },
                    MetadataHint::NoHint,
                ),
            )
        },
        _ => None,
    }
}

/// The reduce hint of a `val` path chain, from its first argument.
pub open spec fn val_chain_hint_spec(a: NodeView) -> ReduceHint {
    match a {
        NodeView::Value(JsonValue::Str(s)) => if s == "current"@ {
            ReduceHint::CurrentPath
        } else if s == "accumulator"@ {
            ReduceHint::AccumulatorPath
        } else {
            ReduceHint::NoHint
        },
        _ => ReduceHint::NoHint,
    }
}

/// The magnitude of a scope level, cut to 32 bits.
pub open spec fn level_u32(l: int) -> u32 {
    (if l < 0 {
        -l
    } else {
        l
    }) as u32
}

/// What `val` with literal arguments compiles to.
pub open spec fn try_val_spec(args: Seq<NodeView>) -> Option<NodeView> {
    if args.len() == 0 {
        Some(var_view(0, Seq::empty(), ReduceHint::NoHint, MetadataHint::NoHint))
    } else if args.len() == 1 {
        val_single_spec(args[0])
    } else if val_level_spec(args[0]) is Some {
        match val_segments_spec(args.skip(1)) {
            Some(segs) => Some(
                var_view(
                    level_u32(val_level_spec(args[0])->0),
                    segs,
                    ReduceHint::NoHint,
                    metadata_hint_spec(args),
                ),
            ),
            None => None,
        }
    } else {
        match (val_segment_spec(args[0]), val_segments_spec(args.skip(1))) {
            (Some(first), Some(rest)) => Some(
                var_view(0, seq![first] + rest, val_chain_hint_spec(args[0]), MetadataHint::NoHint),
            ),
            _ => None,
        }
    }
}

/// The field segments of a run of literal string arguments, if all are.
pub open spec fn exists_segments_spec(args: Seq<NodeView>) -> Option<Seq<SegmentView>>
    decreases args.len(),
{
    if args.len() == 0 {
        Some(Seq::empty())
    } else {
        match (exists_segments_spec(args.drop_last()), args.last()) {
            (Some(p), NodeView::Value(JsonValue::Str(s))) => Some(p.push(SegmentView::Field(s))),
            _ => None,
        }
    }
}

/// What `exists` with literal arguments compiles to.
pub open spec fn try_exists_spec(args: Seq<NodeView>) -> Option<NodeView> {
    match exists_segments_spec(args) {
        Some(segs) => Some(NodeView::Exists { scope_level: 0, segments: segs }),
        None => None,
    }
}

/// One `missing` argument: a literal string path is parsed.
pub open spec fn missing_arg_spec(a: NodeView) -> MissingArgView {
    match a {
        NodeView::Value(JsonValue::Str(s)) => MissingArgView::Static(s, parse_path_spec(s)),
        _ => MissingArgView::Dynamic(a),
    }
}

/// What `missing` compiles to.
pub open spec fn compile_missing_spec(args: Seq<NodeView>) -> NodeView {
    NodeView::Missing(args.map_values(|a: NodeView| missing_arg_spec(a)))
}

/// The `min_present` of `missing_some`: a literal integer (negative as
/// zero), any other argument at run time, and one when absent.
pub open spec fn missing_min_spec(args: Seq<NodeView>) -> MissingMinView {
    if args.len() == 0 {
        MissingMinView::Static(1)
    } else {
        match args[0] {
            NodeView::Value(JsonValue::Number(n)) => MissingMinView::Static(
                if n >= 0 {
                    n as usize
                } else {
                    0
                },
            ),
            _ => MissingMinView::Dynamic(Box::new(args[0])),
        }
    }
}

/// Every element is a string.
pub open spec fn all_strings(items: Seq<JsonValue>) -> bool {
    forall|i: int| 0 <= i < items.len() ==> #[trigger] items[i] is Str
}

/// A literal path list, each path parsed.
pub open spec fn parsed_paths_spec(items: Seq<JsonValue>) -> Seq<(Seq<char>, Seq<SegmentView>)> {
    items.map_values(|j: JsonValue| (j->Str_0, parse_path_spec(j->Str_0)))
}

/// The path list of `missing_some`: a literal array of strings is parsed,
/// any other argument is evaluated at run time, and it is empty when absent.
pub open spec fn missing_paths_spec(args: Seq<NodeView>) -> MissingPathsView {
    if args.len() < 2 {
        MissingPathsView::Static(Seq::empty())
    } else {
        match args[1] {
            NodeView::Value(JsonValue::Array(items)) => if all_strings(items) {
                MissingPathsView::Static(parsed_paths_spec(items))
            } else {
                MissingPathsView::Dynamic(Box::new(args[1]))
            },
            _ => MissingPathsView::Dynamic(Box::new(args[1])),
        }
    }
}

/// What `missing_some` compiles to.
pub open spec fn compile_missing_some_spec(args: Seq<NodeView>) -> NodeView {
    NodeView::MissingSome(missing_min_spec(args), missing_paths_spec(args))
}

/// What `throw` of one literal string compiles to: the error payload
/// `{"type": s}`.
pub open spec fn throw_literal_spec(op: OpCode, args: Seq<NodeView>) -> Option<NodeView> {
    if op == OpCode::Throw && args.len() == 1 {
        match args[0] {
            NodeView::Value(JsonValue::Str(s)) => Some(
                NodeView::Throw(JsonValue::Object(seq![("type"@, JsonValue::Str(s))])),
            ),
            _ => None,
        }
    } else {
        None
    }
}

/// The node that `and` / `or` / `if` over a non-array argument compile to:
/// the operator over one literal `{"__invalid_args__": true, "value": arg}`.
pub open spec fn invalid_marker_spec(op: OpCode, arg: JsonValue) -> NodeView {
    NodeView::Builtin(
        op,
        seq![
            NodeView::Value(
                JsonValue::Object(
                    seq![("__invalid_args__"@, JsonValue::Bool(true)), ("value"@, arg)],
                ),
            ),
        ],
    )
}

/// A `var` path split into its reduce hint and segments.
pub fn parse_var_path(path: &str) -> (r: (ReduceHint, Vec<PathSegment>))
    ensures
        r.0 == parse_var_path_spec(path@).0,
        segments_view(r.1@) == parse_var_path_spec(path@).1,
{
    if key_eq(path, "current") {
        let segs = vec![PathSegment::Field(String::from_str("current"))];
        assert(segments_view(segs@) =~= seq![SegmentView::Field("current"@)]);
        return (ReduceHint::Current, segs);
    }
    if key_eq(path, "accumulator") {
        let segs = vec![PathSegment::Field(String::from_str("accumulator"))];
        assert(segments_view(segs@) =~= seq![SegmentView::Field("accumulator"@)]);
        return (ReduceHint::Accumulator, segs);
    }
    match strip_prefix(path, "current.") {
        Some(rest) => {
            let mut segs = vec![PathSegment::Field(String::from_str("current"))];
            let mut tail = parse_path_segments(rest);
            segs.append(&mut tail);
            assert(segments_view(segs@) =~= seq![SegmentView::Field("current"@)] + parse_path_spec(
                rest@,
            ));
            return (ReduceHint::CurrentPath, segs);
        },
        None => {},
    }
    match strip_prefix(path, "accumulator.") {
        Some(rest) => {
            let mut segs = vec![PathSegment::Field(String::from_str("accumulator"))];
            let mut tail = parse_path_segments(rest);
            segs.append(&mut tail);
            assert(segments_view(segs@) =~= seq![SegmentView::Field("accumulator"@)]
                + parse_path_spec(rest@));
            return (ReduceHint::AccumulatorPath, segs);
        },
        None => {},
    }
    let segs = parse_path_segments(path);
    assert(segments_view(segs@) =~= segs@.map_values(|p: PathSegment| p@));
    (ReduceHint::NoHint, segs)
}

/// `val_segments_spec` is defined exactly when every argument is a literal
/// segment, and then lists their segments.
pub proof fn lemma_val_segments(args: Seq<NodeView>)
    ensures
        val_segments_spec(args) is Some <==> forall|i: int| 0 <= i < args.len() ==> #[trigger] val_segment_spec(args[i]) is Some,
        val_segments_spec(args) is Some ==> {
            &&& val_segments_spec(args)->0.len() == args.len()
            &&& forall|i: int| 0 <= i < args.len() ==> #[trigger] val_segments_spec(args)->0[i] == val_segment_spec(args[i])->0
        },
    decreases args.len(),
{
    if args.len() > 0 {
        lemma_val_segments(args.drop_last());
        if val_segments_spec(args) is Some {
            assert forall|i: int| 0 <= i < args.len() implies #[trigger] val_segment_spec(args[i]) is Some by {
                if i < args.len() - 1 {
                    assert(args.drop_last()[i] == args[i]);
                }
            }
        } else {
            if val_segments_spec(args.drop_last()) is None {
                let j = choose|j: int| 0 <= j < args.len() - 1 && !(#[trigger] val_segment_spec(args.drop_last()[j]) is Some);
                assert(args.drop_last()[j] == args[j]);
                assert(!(val_segment_spec(args[j]) is Some));
            } else {
                assert(!(val_segment_spec(args[args.len() - 1]) is Some));
            }
        }
    }
}

/// `exists_segments_spec` is defined exactly when every argument is a
/// literal string, and then lists their field segments.
pub proof fn lemma_exists_segments(args: Seq<NodeView>)
    ensures
        exists_segments_spec(args) is Some <==> forall|i: int| 0 <= i < args.len() ==> #[trigger] args[i] matches NodeView::Value(JsonValue::Str(_)),
        exists_segments_spec(args) is Some ==> {
            &&& exists_segments_spec(args)->0.len() == args.len()
            &&& forall|i: int| 0 <= i < args.len() ==> #[trigger] exists_segments_spec(args)->0[i] == SegmentView::Field(args[i]->Value_0->Str_0)
        },
    decreases args.len(),
{
    if args.len() > 0 {
        lemma_exists_segments(args.drop_last());
        if exists_segments_spec(args) is Some {
            assert forall|i: int| 0 <= i < args.len() implies #[trigger] args[i] matches NodeView::Value(JsonValue::Str(_)) by {
                if i < args.len() - 1 {
                    assert(args.drop_last()[i] == args[i]);
                }
            }
        } else {
            if exists_segments_spec(args.drop_last()) is None {
                let j = choose|j: int| 0 <= j < args.len() - 1 && !(#[trigger] args.drop_last()[j] matches NodeView::Value(JsonValue::Str(_)));
                assert(args.drop_last()[j] == args[j]);
            }
        }
    }
}

/// The segment a literal `val` argument denotes.
fn val_arg_to_segment(arg: &CompiledNode) -> (r: Option<PathSegment>)
    ensures
        match r {
            Some(seg) => val_segment_spec(arg@) == Some(seg@),
            None => val_segment_spec(arg@) is None,
        },
{
    match arg {
        CompiledNode::Value { value: DataValue::String(s) } => match parse_usize(s.as_str()) {
            Some(idx) => Some(PathSegment::FieldOrIndex(s.clone(), idx)),
            None => Some(PathSegment::Field(s.clone())),
        },
        CompiledNode::Value { value: DataValue::Number(n) } => {
            if *n >= 0 {
                Some(PathSegment::Index(*n as usize))
            } else {
                None
            }
        },
        _ => None,
    }
}

/// The segments of `args[start..]`, when all are literal segments.
fn val_segments_from(args: &Vec<CompiledNode>, start: usize) -> (r: Option<Vec<PathSegment>>)
    requires
        start <= args@.len(),
    ensures
        match r {
            Some(v) => val_segments_spec(nodes_view(args@).skip(start as int)) == Some(segments_view(v@)),
            None => val_segments_spec(nodes_view(args@).skip(start as int)) is None,
        },
{
    let ghost tail = nodes_view(args@).skip(start as int);
    proof {
        lemma_val_segments(tail);
    }
    let mut out: Vec<PathSegment> = Vec::new();
    let mut i: usize = start;
    while i < args.len()
        invariant
            start <= i <= args@.len(),
            tail == nodes_view(args@).skip(start as int),
            out@.len() == i - start,
            forall|j: int| 0 <= j < i - start ==> #[trigger] val_segment_spec(tail[j]) == Some(out@[j]@),
        decreases args@.len() - i,
    {
        match val_arg_to_segment(&args[i]) {
            Some(seg) => {
                out.push(seg);
            },
            None => {
                assert(tail[i - start] == node_view(args@[i as int]));
                assert(val_segment_spec(tail[i - start]) is None);
                proof {
                    lemma_val_segments(tail);
                }
                return None;
            },
        }
        i = i + 1;
    }
    proof {
        lemma_val_segments(tail);
        assert(segments_view(out@) =~= val_segments_spec(tail)->0);
    }
    Some(out)
}

/// Compiles `var` with a literal path into a variable-access node.
pub fn try_compile_var(args: &Vec<CompiledNode>) -> (r: Option<CompiledNode>)
    ensures
        opt_node_view(r) == try_var_spec(nodes_view(args@)),
{
    if args.len() == 0 {
        let r = CompiledNode::CompiledVar {
            scope_level: 0,
            segments: Vec::new(),
            reduce_hint: ReduceHint::NoHint,
            metadata_hint: MetadataHint::NoHint,
            default_value: None,
        };
        assert(segments_view(Seq::<PathSegment>::empty()) =~= Seq::<SegmentView>::empty());
        return Some(r);
    }
    let ghost nv = nodes_view(args@);
    assert(nv[0] == node_view(args@[0]));
    let (segments, reduce_hint) = match &args[0] {
        CompiledNode::Value { value: DataValue::String(s) } => {
            let (h, segs) = parse_var_path(s.as_str());
            (segs, h)
        },
        CompiledNode::Value { value: DataValue::Number(n) } => {
            let text = format_i64(*n);
            (parse_path_segments(text.as_str()), ReduceHint::NoHint)
        },
        _ => {
            return None;
        },
    };
    let default_value = if args.len() > 1 {
        assert(nv[1] == node_view(args@[1]));
        Some(Box::new(args[1].copy()))
    } else {
        None
    };
    proof {
        assert(segments_view(segments@) =~= segments@.map_values(|p: PathSegment| p@));
    }
    Some(
        CompiledNode::CompiledVar {
            scope_level: 0,
            segments,
            reduce_hint,
            metadata_hint: MetadataHint::NoHint,
            default_value,
        },
    )
}

/// Compiles a single-argument `val`: one non-empty literal key.
fn try_compile_val_single_arg(arg: &CompiledNode) -> (r: Option<CompiledNode>)
    ensures
        opt_node_view(r) == val_single_spec(arg@),
{
    match arg {
        CompiledNode::Value { value: DataValue::String(s) } => {
            if s.as_str().is_empty() {
                return None;
            }
            let reduce_hint = if key_eq(s.as_str(), "current") {
                ReduceHint::Current
            } else if key_eq(s.as_str(), "accumulator") {
                ReduceHint::Accumulator
            } else {
                ReduceHint::NoHint
            };
            let segment = match parse_usize(s.as_str()) {
                Some(idx) => PathSegment::FieldOrIndex(s.clone(), idx),
                None => PathSegment::Field(s.clone()),
            };
            let segments = vec![segment];
            assert(segments_view(segments@) =~= seq![segment_of(s@)]);
            Some(
                CompiledNode::CompiledVar {
                    scope_level: 0,
                    segments,
                    reduce_hint,
                    metadata_hint: MetadataHint::NoHint,
                    default_value: None,
                },
            )
        },
        _ => None,
    }
}

/// The metadata a scoped `val` reads.
fn scope_level_metadata_hint(args: &Vec<CompiledNode>) -> (r: MetadataHint)
    ensures
        r == metadata_hint_spec(nodes_view(args@)),
{
    if args.len() == 2 {
        assert(nodes_view(args@)[1] == node_view(args@[1]));
        match &args[1] {
            CompiledNode::Value { value: DataValue::String(s) } => {
                if key_eq(s.as_str(), "index") {
                    return MetadataHint::Index;
                } else if key_eq(s.as_str(), "key") {
                    return MetadataHint::Key;
                }
            },
            _ => {},
        }
    }
    MetadataHint::NoHint
}

/// The scope level carried by a `[[level], ...]` argument.
fn val_level(arg: &CompiledNode) -> (r: Option<i64>)
    ensures
        match r {
            Some(l) => val_level_spec(arg@) == Some(l as int),
            None => val_level_spec(arg@) is None,
        },
{
    match arg {
        CompiledNode::Value { value: DataValue::Array(items) } => {
            if items.len() > 0 {
                proof {
                    lemma_values_view(items@);
                }
                assert(values_view(items@)[0] == items@[0]@);
                match &items[0] {
                    DataValue::Number(l) => Some(*l),
                    _ => None,
                }
            } else {
                None
            }
        },
        _ => None,
    }
}

/// Compiles `val` with literal arguments into a variable-access node.
pub fn try_compile_val(args: &Vec<CompiledNode>) -> (r: Option<CompiledNode>)
    ensures
        opt_node_view(r) == try_val_spec(nodes_view(args@)),
{
    let ghost nv = nodes_view(args@);
    if args.len() == 0 {
        let r = CompiledNode::CompiledVar {
            scope_level: 0,
            segments: Vec::new(),
            reduce_hint: ReduceHint::NoHint,
            metadata_hint: MetadataHint::NoHint,
            default_value: None,
        };
        assert(segments_view(Seq::<PathSegment>::empty()) =~= Seq::<SegmentView>::empty());
        return Some(r);
    }
    assert(nv[0] == node_view(args@[0]));
    if args.len() == 1 {
        return try_compile_val_single_arg(&args[0]);
    }
    match val_level(&args[0]) {
        Some(level) => {
            let mag: u64 = if level < 0 {
                if level == i64::MIN {
                    0x8000_0000_0000_0000u64
                } else {
                    (0 - level) as u64
                }
            } else {
                level as u64
            };
            let scope_level = mag as u32;
            let metadata_hint = scope_level_metadata_hint(args);
            return match val_segments_from(args, 1) {
                Some(segments) => Some(
                    CompiledNode::CompiledVar {
                        scope_level,
                        segments,
                        reduce_hint: ReduceHint::NoHint,
                        metadata_hint,
                        default_value: None,
                    },
                ),
                None => None,
            };
        },
        None => {},
    }
    match val_arg_to_segment(&args[0]) {
        Some(first) => {
            let reduce_hint = match &args[0] {
                CompiledNode::Value { value: DataValue::String(s) } => {
                    if key_eq(s.as_str(), "current") {
                        ReduceHint::CurrentPath
                    } else if key_eq(s.as_str(), "accumulator") {
                        ReduceHint::AccumulatorPath
                    } else {
                        ReduceHint::NoHint
                    }
                },
                _ => ReduceHint::NoHint,
            };
            match val_segments_from(args, 1) {
                Some(rest) => {
                    let mut segments = vec![first];
                    let mut tail = rest;
                    segments.append(&mut tail);
                    assert(segments_view(segments@) =~= seq![first@] + segments_view(rest@));
                    Some(
                        CompiledNode::CompiledVar {
                            scope_level: 0,
                            segments,
                            reduce_hint,
                            metadata_hint: MetadataHint::NoHint,
                            default_value: None,
                        },
                    )
                },
                None => None,
            }
        },
        None => None,
    }
}

/// Compiles `exists` over literal strings into an `exists` node.
pub fn try_compile_exists(args: &Vec<CompiledNode>) -> (r: Option<CompiledNode>)
    ensures
        opt_node_view(r) == try_exists_spec(nodes_view(args@)),
{
    let ghost nv = nodes_view(args@);
    proof {
        lemma_exists_segments(nv);
    }
    let mut segments: Vec<PathSegment> = Vec::new();
    let mut i: usize = 0;
    while i < args.len()
        invariant
            i <= args@.len(),
            nv == nodes_view(args@),
            segments@.len() == i,
            forall|j: int| 0 <= j < i ==> (#[trigger] nv[j] matches NodeView::Value(JsonValue::Str(_)))
                && segments@[j]@ == SegmentView::Field(nv[j]->Value_0->Str_0),
        decreases args@.len() - i,
    {
        assert(nv[i as int] == node_view(args@[i as int]));
        match &args[i] {
            CompiledNode::Value { value: DataValue::String(s) } => {
                segments.push(PathSegment::Field(s.clone()));
            },
            _ => {
                proof {
                    lemma_exists_segments(nv);
                }
                return None;
            },
        }
        i = i + 1;
    }
    proof {
        lemma_exists_segments(nv);
        assert(segments_view(segments@) =~= exists_segments_spec(nv)->0);
    }
    Some(CompiledNode::CompiledExists { scope_level: 0, segments })
}

/// Compiles `missing`: literal string paths are parsed, other arguments
/// are kept for run time.
pub fn compile_missing(args: &Vec<CompiledNode>) -> (r: CompiledNode)
    ensures
        r@ == compile_missing_spec(nodes_view(args@)),
{
    let ghost nv = nodes_view(args@);
    let mut out: Vec<MissingArg> = Vec::new();
    let mut i: usize = 0;
    while i < args.len()
        invariant
            i <= args@.len(),
            nv == nodes_view(args@),
            out@.len() == i,
            forall|j: int| 0 <= j < i ==> #[trigger] crate::node::missing_arg_view(out@[j]) == missing_arg_spec(nv[j]),
        decreases args@.len() - i,
    {
        proof {
            lemma_nodes_view(args@);
        }
        assert(nv[i as int] == node_view(args@[i as int]));
        let a = match &args[i] {
            CompiledNode::Value { value: DataValue::String(s) } => {
                let segments = parse_path_segments(s.as_str());
                assert(segments_view(segments@) =~= segments@.map_values(|p: PathSegment| p@));
                MissingArg::Static { path: s.clone(), segments }
            },
            other => MissingArg::Dynamic(other.copy()),
        };
        out.push(a);
        i = i + 1;
    }
    assert(missing_args_view(out@) =~= nv.map_values(|a: NodeView| missing_arg_spec(a)));
    CompiledNode::CompiledMissing { args: out }
}

/// Compiles `missing_some`: a literal count and a literal array of string
/// paths are prepared; other arguments are kept for run time.
pub fn compile_missing_some(args: &Vec<CompiledNode>) -> (r: CompiledNode)
    ensures
        r@ == compile_missing_some_spec(nodes_view(args@)),
{
    let ghost nv = nodes_view(args@);
    let min_present = if args.len() == 0 {
        MissingMin::Static(1)
    } else {
        assert(nv[0] == node_view(args@[0]));
        match &args[0] {
            CompiledNode::Value { value: DataValue::Number(n) } => {
                if *n >= 0 {
                    MissingMin::Static(*n as usize)
                } else {
                    MissingMin::Static(0)
                }
            },
            other => MissingMin::Dynamic(Box::new(other.copy())),
        }
    };
    assert(crate::node::missing_min_view(min_present) == missing_min_spec(nv));
    let paths = if args.len() < 2 {
        let v: Vec<(String, Vec<PathSegment>)> = Vec::new();
        assert(static_paths_view(v@) =~= Seq::<(Seq<char>, Seq<SegmentView>)>::empty());
        MissingPaths::Static(v)
    } else {
        assert(nv[1] == node_view(args@[1]));
        match &args[1] {
            CompiledNode::Value { value: DataValue::Array(items) } => {
                let ghost iv = values_view(items@);
                let mut parsed: Vec<(String, Vec<PathSegment>)> = Vec::new();
                let mut all_str = true;
                let mut i: usize = 0;
                while i < items.len()
                    invariant
                        i <= items@.len(),
                        iv == values_view(items@),
                        all_str ==> parsed@.len() == i,
                        all_str ==> forall|j: int| 0 <= j < i ==> #[trigger] iv[j] is Str
                            && parsed@[j].0@ == iv[j]->Str_0
                            && segments_view(parsed@[j].1@) == parse_path_spec(iv[j]->Str_0),
                        !all_str ==> !all_strings(iv),
                    decreases items@.len() - i,
                {
                    if all_str {
                        proof {
                            lemma_values_view(items@);
                        }
                        assert(iv[i as int] == items@[i as int]@);
                        match &items[i] {
                            DataValue::String(s) => {
                                let segments = parse_path_segments(s.as_str());
                                assert(segments_view(segments@) =~= segments@.map_values(|p: PathSegment| p@));
                                parsed.push((s.clone(), segments));
                            },
                            _ => {
                                all_str = false;
                            },
                        }
                    }
                    i = i + 1;
                }
                if all_str {
                    assert(static_paths_view(parsed@) =~= parsed_paths_spec(iv));
                    MissingPaths::Static(parsed)
                } else {
                    MissingPaths::Dynamic(Box::new(args[1].copy()))
                }
            },
            other => MissingPaths::Dynamic(Box::new(other.copy())),
        }
    };
    assert(crate::node::missing_paths_view(paths) == missing_paths_spec(nv));
    CompiledNode::CompiledMissingSome { min_present, paths }
}

/// Compiles `throw` of one literal string into a prebuilt error payload.
pub fn try_compile_throw_literal(opcode: OpCode, args: &Vec<CompiledNode>) -> (r: Option<CompiledNode>)
    ensures
        opt_node_view(r) == throw_literal_spec(opcode, nodes_view(args@)),
{
    if opcode != OpCode::Throw || args.len() != 1 {
        return None;
    }
    proof {
        lemma_nodes_view(args@);
    }
    assert(nodes_view(args@)[0] == node_view(args@[0]));
    match &args[0] {
        CompiledNode::Value { value: DataValue::String(s) } => {
            let entries = vec![(String::from_str("type"), DataValue::String(s.clone()))];
            let error = DataValue::Object(entries);
            assert(pairs_view(entries@) =~= seq![("type"@, JsonValue::Str(s@))]);
            Some(CompiledNode::CompiledThrow { error })
        },
        _ => None,
    }
}

/// The marker node for `and` / `or` / `if` over a non-array argument.
pub fn invalid_args_marker(opcode: OpCode, args_value: &DataValue) -> (r: CompiledNode)
    ensures
        r@ == invalid_marker_spec(opcode, args_value@),
{
    let entries = vec![
        (String::from_str("__invalid_args__"), DataValue::Bool(true)),
        (String::from_str("value"), args_value.copy()),
    ];
    assert(pairs_view(entries@) =~= seq![
        ("__invalid_args__"@, JsonValue::Bool(true)),
        ("value"@, args_value@),
    ]);
    let value_node = CompiledNode::Value { value: DataValue::Object(entries) };
    let args = vec![value_node];
    assert(nodes_view(args@) =~= seq![value_node@]);
    CompiledNode::BuiltinOperator { opcode, args }
}

/// A compiled regular expression.
#[verifier::external_type_specification]
#[verifier::external_body]
pub struct ExRegex(Regex);

/// Whether `regex::Regex::new` accepts `pattern`: its syntax is valid and
/// the compiled program fits the crate's default size limits.
pub uninterp spec fn regex_accepts(pattern: Seq<char>) -> bool;

/// What `regex::Regex::capture_names` lists for the regex compiled from
/// `pattern`: one entry per capture group, in the order of the groups'
/// opening parentheses, the group's name or `None` for an unnamed group.
pub uninterp spec fn regex_group_names(pattern: Seq<char>) -> Seq<Option<Seq<char>>>;

/// A compiled regex together with the pattern it was compiled from.
pub struct SourcedRegex {
    regex: Regex,
    source: Ghost<Seq<char>>,
}

impl SourcedRegex {
    /// The compiled regex.
    pub fn as_regex(&self) -> &Regex {
        &self.regex
    }
}

impl View for SourcedRegex {
    type V = Seq<char>;

    /// The pattern the regex was compiled from.
    closed spec fn view(&self) -> Seq<char> {
        self.source@
    }
}

/// `regex::Regex::new`: compiles `pattern`; `None` where the crate reports
/// an error. The contract ties success to the pattern through
/// `regex_accepts` and records the pattern beside the compiled regex; it
/// says nothing more of the compiled regex.
#[verifier::external_body]
fn regex_new(pattern: &str) -> (r: Option<SourcedRegex>)
    ensures
        r is Some <==> regex_accepts(pattern@),
        r matches Some(sr) ==> sr@ == pattern@,
{
    match Regex::new(pattern) {
        Ok(regex) => Some(SourcedRegex { regex, source: Ghost(pattern@) }),
        Err(_) => None,
    }
}

/// The names of a list of capture groups as sequences of characters.
pub open spec fn opt_names_view(v: Seq<Option<String>>) -> Seq<Option<Seq<char>>> {
    v.map_values(|o: Option<String>| match o {
        Some(s) => Some(s@),
        None => None,
    })
}

/// `regex::Regex::capture_names`: one entry per capture group, in the
/// order of the groups' opening parentheses, with the group's name or
/// `None` for an unnamed group. The contract names the list through
/// `regex_group_names` of the pattern, and claims what the crate documents
/// of every regex: at least one entry, and the first (the whole match)
/// unnamed.
#[verifier::external_body]
fn regex_capture_names(re: &SourcedRegex) -> (r: Vec<Option<String>>)
    ensures
        opt_names_view(r@) == regex_group_names(re@),
        r@.len() >= 1,
        r@[0] is None,
{
    re.regex.capture_names().map(|n| n.map(|s| s.to_string())).collect()
}

/// `pat` occurs in `s` at position `i`.
pub open spec fn occurs_at(s: Seq<char>, pat: Seq<char>, i: int) -> bool {
    0 <= i && i + pat.len() <= s.len() && s.subrange(i, i + pat.len()) == pat
}

/// `pat` occurs somewhere in `s`.
pub open spec fn has_text(s: Seq<char>, pat: Seq<char>) -> bool {
    exists|i: int| #[trigger] occurs_at(s, pat, i)
}

/// True iff `pat` occurs in `s`.
pub fn contains_text(s: &str, pat: &str) -> (r: bool)
    ensures
        r == has_text(s@, pat@),
{
    let n = s.unicode_len();
    let k = pat.unicode_len();
    if k > n {
        proof {
            assert forall|i: int| !(#[trigger] occurs_at(s@, pat@, i)) by {}
        }
        return false;
    }
    if k == 0 {
        assert(s@.subrange(0, 0) =~= pat@);
        assert(occurs_at(s@, pat@, 0));
        return true;
    }
    let mut i: usize = 0;
    while i <= n - k
        invariant
            n == s@.len(),
            k == pat@.len(),
            0 < k <= n,
            i <= n - k + 1,
            forall|j: int| 0 <= j < i ==> !(#[trigger] occurs_at(s@, pat@, j)),
        decreases n - k + 1 - i,
    {
        let window = s.substring_char(i, i + k);
        if key_eq(window, pat) {
            assert(occurs_at(s@, pat@, i as int));
            return true;
        }
        i = i + 1;
    }
    proof {
        assert forall|j: int| !(#[trigger] occurs_at(s@, pat@, j)) by {
            if 0 <= j && j < i {
            }
        }
    }
    false
}

/// A `split` whose pattern has named captures, with the regex compiled
/// once: the text argument, the regex, and its capture-group names.
pub struct CompiledSplitRegexData {
    pub args: Vec<CompiledNode>,
    pub regex: SourcedRegex,
    pub capture_names: Vec<String>,
}

/// The literal pattern of a `split` that names captures: the second
/// argument, when it is a literal string containing `(?P<`.
pub open spec fn split_pattern_spec(args: Seq<NodeView>) -> Option<Seq<char>> {
    if args.len() >= 2 {
        match args[1] {
            NodeView::Value(JsonValue::Str(p)) => if has_text(p, "(?P<"@) {
                Some(p)
            } else {
                None
            },
            _ => None,
        }
    } else {
        None
    }
}

/// The named groups of a capture-group list, in order.
pub open spec fn named_groups(g: Seq<Option<Seq<char>>>) -> Seq<Seq<char>>
    decreases g.len(),
{
    if g.len() == 0 {
        Seq::empty()
    } else {
        let rest = named_groups(g.drop_last());
        match g.last() {
            Some(n) => rest.push(n),
            None => rest,
        }
    }
}

/// The capture names a `split` keeps: those of the literal pattern, where
/// the regex crate accepts the pattern and at least one group is named.
pub open spec fn split_names_spec(args: Seq<NodeView>) -> Option<Seq<Seq<char>>> {
    match split_pattern_spec(args) {
        Some(p) => if regex_accepts(p) && named_groups(regex_group_names(p)).len() > 0 {
            Some(named_groups(regex_group_names(p)))
        } else {
            None
        },
        None => None,
    }
}

/// The names of the named groups of a capture-group list, in order,
/// unnamed groups left out.
pub fn collect_named_groups(groups: &Vec<Option<String>>) -> (r: Vec<String>)
    ensures
        r@.map_values(|n: String| n@) == named_groups(opt_names_view(groups@)),
{
    let mut names: Vec<String> = Vec::new();
    let mut i: usize = 0;
    while i < groups.len()
        invariant
            i <= groups@.len(),
            names@.map_values(|n: String| n@) == named_groups(opt_names_view(groups@.take(i as int))),
        decreases groups@.len() - i,
    {
        let ghost prev = groups@.take(i as int);
        let ghost next = groups@.take(i as int + 1);
        assert(next.drop_last() =~= prev);
        assert(opt_names_view(next).drop_last() =~= opt_names_view(prev));
        match &groups[i] {
            Some(name) => {
                let ghost before = names@;
                let n = name.clone();
                names.push(n);
                assert(names@.map_values(|n: String| n@) =~= before.map_values(|n: String| n@).push(name@));
            },
            None => {},
        }
        i = i + 1;
    }
    assert(groups@.take(groups@.len() as int) =~= groups@);
    names
}

/// Compiles `split` over a literal pattern with named captures into a
/// node that keeps the compiled regex and the capture names.
pub fn try_compile_split_regex(args: &Vec<CompiledNode>) -> (r: Option<CompiledSplitRegexData>)
    ensures
        r is Some <==> split_names_spec(nodes_view(args@)) is Some,
        r matches Some(d) ==> {
            &&& nodes_view(d.args@) == seq![nodes_view(args@)[0]]
            &&& d.regex@ == split_pattern_spec(nodes_view(args@))->0
            &&& d.capture_names@.map_values(|n: String| n@) == split_names_spec(nodes_view(args@))->0
        },
{
    if args.len() < 2 {
        return None;
    }
    proof {
        lemma_nodes_view(args@);
    }
    let ghost nv = nodes_view(args@);
    assert(nv[1] == node_view(args@[1]));
    assert(nv[0] == node_view(args@[0]));
    let pattern = match &args[1] {
        CompiledNode::Value { value: DataValue::String(s) } => {
            if !contains_text(s.as_str(), "(?P<") {
                assert(split_pattern_spec(nv) is None);
                return None;
            }
            assert(nv[1] == NodeView::Value(JsonValue::Str(s@)));
            assert(split_pattern_spec(nv) == Some(s@));
            s.as_str()
        },
        _ => {
            assert(split_pattern_spec(nv) is None);
            return None;
        },
    };
    assert(split_pattern_spec(nv) == Some(pattern@));
    let re = match regex_new(pattern) {
        Some(re) => re,
        None => {
            return None;
        },
    };
    let groups = regex_capture_names(&re);
    let capture_names = collect_named_groups(&groups);
    if capture_names.len() == 0 {
        return None;
    }
    let text_args = vec![args[0].copy()];
    assert(nodes_view(text_args@) =~= seq![nv[0]]);
    Some(CompiledSplitRegexData { args: text_args, regex: re, capture_names })
}

} // verus!
