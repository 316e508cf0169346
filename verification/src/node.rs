//! The compiled form of a rule: a tree of nodes, each a literal, an array
//! of nodes, an operator invocation, or a node that a compile-time
//! specialisation produced (variable access, `exists`, `missing`,
//! `missing_some`, `throw` of a literal).

use vstd::prelude::*;
use crate::opcode::OpCode;
use crate::path::{PathSegment, SegmentView, segments_view, copy_segments};
use crate::value::{DataValue, JsonValue};

verus! {

/// How a `var` path relates to the reduce state, decided at compile time.
#[derive(Debug, Clone, Copy, PartialEq, Eq, Structural)]
pub enum ReduceHint {
    /// Ordinary path access.
    NoHint,
    /// The path is exactly `current`.
    Current,
    /// The path is exactly `accumulator`.
    Accumulator,
    /// The path starts with `current.`.
    CurrentPath,
    /// The path starts with `accumulator.`.
    AccumulatorPath,
}

/// Whether a scoped `val` reads iteration metadata, decided at compile time.
#[derive(Debug, Clone, Copy, PartialEq, Eq, Structural)]
pub enum MetadataHint {
    /// Ordinary data access.
    NoHint,
    /// The frame's index.
    Index,
    /// The frame's key.
    Key,
}

/// One argument of a compiled `missing`.
#[derive(Debug, PartialEq)]
pub enum MissingArg {
    /// A literal path, parsed at compile time.
    Static { path: String, segments: Vec<PathSegment> },
    /// Anything else, evaluated at run time.
    Dynamic(CompiledNode),
}

/// The `min_present` argument of a compiled `missing_some`.
#[derive(Debug, PartialEq)]
pub enum MissingMin {
    /// A literal count.
    Static(usize),
    /// Evaluated at run time.
    Dynamic(Box<CompiledNode>),
}

/// The path list of a compiled `missing_some`.
#[derive(Debug, PartialEq)]
pub enum MissingPaths {
    /// A literal array of strings, each parsed at compile time.
    Static(Vec<(String, Vec<PathSegment>)>),
    /// Evaluated at run time.
    Dynamic(Box<CompiledNode>),
}

/// A node of a compiled rule.
#[derive(Debug, PartialEq)]
pub enum CompiledNode {
    /// A literal.
    Value { value: DataValue },
    /// An array whose elements are evaluated in order.
    Array { nodes: Vec<CompiledNode> },
    /// A built-in operator with its arguments.
    BuiltinOperator { opcode: OpCode, args: Vec<CompiledNode> },
    /// An operator that is not built in, looked up by name at run time.
    CustomOperator { name: String, args: Vec<CompiledNode> },
    /// An output template whose fields are evaluated one by one.
    StructuredObject { fields: Vec<(String, CompiledNode)> },
    /// A variable access with its path parsed at compile time.
    CompiledVar {
        scope_level: u32,
        segments: Vec<PathSegment>,
        reduce_hint: ReduceHint,
        metadata_hint: MetadataHint,
        default_value: Option<Box<CompiledNode>>,
    },
    /// An `exists` test with its path parsed at compile time.
    CompiledExists { scope_level: u32, segments: Vec<PathSegment> },
    /// A `missing` with its literal paths parsed at compile time.
    CompiledMissing { args: Vec<MissingArg> },
    /// A `missing_some` with its literal parts parsed at compile time.
    CompiledMissingSome { min_present: MissingMin, paths: MissingPaths },
    /// A `throw` of a literal string, with its error payload prebuilt.
    CompiledThrow { error: DataValue },
}

/// Model of a [`MissingArg`].
pub enum MissingArgView {
    Static(Seq<char>, Seq<SegmentView>),
    Dynamic(NodeView),
}

/// Model of a [`MissingMin`].
pub enum MissingMinView {
    Static(usize),
    Dynamic(Box<NodeView>),
}

/// Model of a [`MissingPaths`].
pub enum MissingPathsView {
    Static(Seq<(Seq<char>, Seq<SegmentView>)>),
    Dynamic(Box<NodeView>),
}

/// The mathematical model of a [`CompiledNode`].
pub enum NodeView {
    Value(JsonValue),
    Array(Seq<NodeView>),
    Builtin(OpCode, Seq<NodeView>),
    Custom(Seq<char>, Seq<NodeView>),
    Structured(Seq<(Seq<char>, NodeView)>),
    Var {
        scope_level: u32,
        segments: Seq<SegmentView>,
        reduce_hint: ReduceHint,
        metadata_hint: MetadataHint,
        default_value: Option<Box<NodeView>>,
    },
    Exists { scope_level: u32, segments: Seq<SegmentView> },
    Missing(Seq<MissingArgView>),
    MissingSome(MissingMinView, MissingPathsView),
    Throw(JsonValue),
}

/// Model of one node.
pub open spec fn node_view(n: CompiledNode) -> NodeView
    decreases n,
{
    match n {
        CompiledNode::Value { value } => NodeView::Value(value@),
        CompiledNode::Array { nodes } => NodeView::Array(nodes_view(nodes@)),
        CompiledNode::BuiltinOperator { opcode, args } => NodeView::Builtin(opcode, nodes_view(args@)),
        CompiledNode::CustomOperator { name, args } => NodeView::Custom(name@, nodes_view(args@)),
        CompiledNode::StructuredObject { fields } => NodeView::Structured(fields_view(fields@)),
        CompiledNode::CompiledVar { scope_level, segments, reduce_hint, metadata_hint, default_value } =>
            NodeView::Var {
                scope_level,
                segments: segments_view(segments@),
                reduce_hint,
                metadata_hint,
                default_value: match default_value {
                    Some(d) => Some(Box::new(node_view(*d))),
                    None => None,
                },
            },
        CompiledNode::CompiledExists { scope_level, segments } =>
            NodeView::Exists { scope_level, segments: segments_view(segments@) },
        CompiledNode::CompiledMissing { args } => NodeView::Missing(missing_args_view(args@)),
        CompiledNode::CompiledMissingSome { min_present, paths } =>
            NodeView::MissingSome(missing_min_view(min_present), missing_paths_view(paths)),
        CompiledNode::CompiledThrow { error } => NodeView::Throw(error@),
    }
}

/// Models of a sequence of nodes.
pub open spec fn nodes_view(s: Seq<CompiledNode>) -> Seq<NodeView>
    decreases s,
{
    if s.len() == 0 {
        Seq::empty()
    } else {
        nodes_view(s.subrange(0, s.len() - 1)).push(node_view(s[s.len() - 1]))
    }
}

/// Models of template fields.
pub open spec fn fields_view(s: Seq<(String, CompiledNode)>) -> Seq<(Seq<char>, NodeView)>
    decreases s,
{
    if s.len() == 0 {
        Seq::empty()
    } else {
        fields_view(s.subrange(0, s.len() - 1)).push((s[s.len() - 1].0@, node_view(s[s.len() - 1].1)))
    }
}

/// Model of one `missing` argument.
pub open spec fn missing_arg_view(a: MissingArg) -> MissingArgView
    decreases a,
{
    match a {
        MissingArg::Static { path, segments } => MissingArgView::Static(path@, segments_view(segments@)),
        MissingArg::Dynamic(n) => MissingArgView::Dynamic(node_view(n)),
    }
}

/// Models of `missing` arguments.
pub open spec fn missing_args_view(s: Seq<MissingArg>) -> Seq<MissingArgView>
    decreases s,
{
    if s.len() == 0 {
        Seq::empty()
    } else {
        missing_args_view(s.subrange(0, s.len() - 1)).push(missing_arg_view(s[s.len() - 1]))
    }
}

/// Model of a `missing_some` count.
pub open spec fn missing_min_view(m: MissingMin) -> MissingMinView
    decreases m,
{
    match m {
        MissingMin::Static(k) => MissingMinView::Static(k),
        MissingMin::Dynamic(n) => MissingMinView::Dynamic(Box::new(node_view(*n))),
    }
}

/// Model of a parsed path list.
pub open spec fn static_paths_view(s: Seq<(String, Vec<PathSegment>)>) -> Seq<(Seq<char>, Seq<SegmentView>)> {
    s.map_values(|p: (String, Vec<PathSegment>)| (p.0@, segments_view(p.1@)))
}

/// Model of a `missing_some` path list.
pub open spec fn missing_paths_view(p: MissingPaths) -> MissingPathsView
    decreases p,
{
    match p {
        MissingPaths::Static(v) => MissingPathsView::Static(static_paths_view(v@)),
        MissingPaths::Dynamic(n) => MissingPathsView::Dynamic(Box::new(node_view(*n))),
    }
}

impl View for CompiledNode {
    type V = NodeView;

    open spec fn view(&self) -> NodeView {
        node_view(*self)
    }
}

pub broadcast proof fn lemma_nodes_view(s: Seq<CompiledNode>)
    ensures
        #[trigger] nodes_view(s).len() == s.len(),
        forall|i: int| 0 <= i < s.len() ==> #[trigger] nodes_view(s)[i] == node_view(s[i]),
    decreases s.len(),
{
    if s.len() > 0 {
        lemma_nodes_view(s.subrange(0, s.len() - 1));
    }
}

pub broadcast proof fn lemma_fields_view(s: Seq<(String, CompiledNode)>)
    ensures
        #[trigger] fields_view(s).len() == s.len(),
        forall|i: int| 0 <= i < s.len() ==> #[trigger] fields_view(s)[i] == (s[i].0@, node_view(s[i].1)),
    decreases s.len(),
{
    if s.len() > 0 {
        lemma_fields_view(s.subrange(0, s.len() - 1));
    }
}

pub broadcast proof fn lemma_missing_args_view(s: Seq<MissingArg>)
    ensures
        #[trigger] missing_args_view(s).len() == s.len(),
        forall|i: int| 0 <= i < s.len() ==> #[trigger] missing_args_view(s)[i] == missing_arg_view(s[i]),
    decreases s.len(),
{
    if s.len() > 0 {
        lemma_missing_args_view(s.subrange(0, s.len() - 1));
    }
}

/// Two node sequences with equal elementwise models have equal models.
pub proof fn lemma_nodes_view_ext(a: Seq<CompiledNode>, b: Seq<CompiledNode>)
    requires
        a.len() == b.len(),
        forall|i: int| 0 <= i < a.len() ==> node_view(a[i]) == node_view(b[i]),
    ensures
        nodes_view(a) == nodes_view(b),
{
    lemma_nodes_view(a);
    lemma_nodes_view(b);
    assert(nodes_view(a) =~= nodes_view(b));
}

impl CompiledNode {
    /// A deep copy of the node.
    pub fn copy(&self) -> (r: CompiledNode)
        ensures
            r@ == self@,
        decreases self,
    {
        match self {
            CompiledNode::Value { value } => CompiledNode::Value { value: value.copy() },
            CompiledNode::Array { nodes } => CompiledNode::Array { nodes: copy_nodes(nodes) },
            CompiledNode::BuiltinOperator { opcode, args } =>
                CompiledNode::BuiltinOperator { opcode: *opcode, args: copy_nodes(args) },
            CompiledNode::CustomOperator { name, args } =>
                CompiledNode::CustomOperator { name: name.clone(), args: copy_nodes(args) },
            CompiledNode::StructuredObject { fields } =>
                CompiledNode::StructuredObject { fields: copy_fields(fields) },
            CompiledNode::CompiledVar { scope_level, segments, reduce_hint, metadata_hint, default_value } => {
                let d = match default_value {
                    Some(b) => {
                        proof {
                            assert(decreases_to!(*self => *b));
                        }
                        Some(Box::new(b.copy()))
                    },
                    None => None,
                };
                let r = CompiledNode::CompiledVar {
                    scope_level: *scope_level,
                    segments: copy_segments(segments),
                    reduce_hint: *reduce_hint,
                    metadata_hint: *metadata_hint,
                    default_value: d,
                };
                assert(r@ == self@);
                r
            },
            CompiledNode::CompiledExists { scope_level, segments } =>
                CompiledNode::CompiledExists { scope_level: *scope_level, segments: copy_segments(segments) },
            CompiledNode::CompiledMissing { args } => CompiledNode::CompiledMissing { args: copy_missing_args(args) },
            CompiledNode::CompiledMissingSome { min_present, paths } => {
                let m = match min_present {
                    MissingMin::Static(k) => MissingMin::Static(*k),
                    MissingMin::Dynamic(b) => {
                        proof {
                            assert(decreases_to!(*self => *min_present));
                            assert(decreases_to!(*min_present => *b));
                        }
                        MissingMin::Dynamic(Box::new(b.copy()))
                    },
                };
                let p = match paths {
                    MissingPaths::Static(v) => MissingPaths::Static(copy_static_paths(v)),
                    MissingPaths::Dynamic(b) => {
                        proof {
                            assert(decreases_to!(*self => *paths));
                            assert(decreases_to!(*paths => *b));
                        }
                        MissingPaths::Dynamic(Box::new(b.copy()))
                    },
                };
                assert(missing_min_view(m) == missing_min_view(*min_present));
                assert(missing_paths_view(p) == missing_paths_view(*paths));
                let r = CompiledNode::CompiledMissingSome { min_present: m, paths: p };
                assert(r@ == self@);
                r
            },
            CompiledNode::CompiledThrow { error } => CompiledNode::CompiledThrow { error: error.copy() },
        }
    }
}

/// Deep copy of a sequence of nodes.
pub fn copy_nodes(items: &Vec<CompiledNode>) -> (r: Vec<CompiledNode>)
    ensures
        nodes_view(r@) == nodes_view(items@),
    decreases items,
{
    let mut out: Vec<CompiledNode> = Vec::new();
    let mut i: usize = 0;
    while i < items.len()
        invariant
            i <= items.len(),
            out@.len() == i,
            forall|j: int| 0 <= j < i ==> #[trigger] node_view(out@[j]) == node_view(items@[j]),
        decreases items.len() - i,
    {
        proof {
            assert(decreases_to!(items => items@));
            assert(decreases_to!(items@ => items@[i as int]));
        }
        let c = items[i].copy();
        out.push(c);
        i = i + 1;
    }
    proof {
        lemma_nodes_view_ext(out@, items@);
    }
    out
}

/// Deep copy of template fields.
pub fn copy_fields(items: &Vec<(String, CompiledNode)>) -> (r: Vec<(String, CompiledNode)>)
    ensures
        fields_view(r@) == fields_view(items@),
    decreases items,
{
    broadcast use lemma_fields_view;
    let mut out: Vec<(String, CompiledNode)> = Vec::new();
    let mut i: usize = 0;
    while i < items.len()
        invariant
            i <= items.len(),
            out@.len() == i,
            forall|j: int| 0 <= j < i ==> #[trigger] out@[j].0@ == items@[j].0@ && node_view(out@[j].1) == node_view(items@[j].1),
        decreases items.len() - i,
    {
        let entry = &items[i];
        proof {
            assert(decreases_to!(items => items@));
            assert(decreases_to!(items@ => items@[i as int]));
            assert(decreases_to!(items@[i as int] => items@[i as int].1));
        }
        let k = entry.0.clone();
        let v = entry.1.copy();
        out.push((k, v));
        i = i + 1;
    }
    assert(fields_view(out@) =~= fields_view(items@));
    out
}

/// Deep copy of `missing` arguments.
pub fn copy_missing_args(items: &Vec<MissingArg>) -> (r: Vec<MissingArg>)
    ensures
        missing_args_view(r@) == missing_args_view(items@),
    decreases items,
{
    broadcast use lemma_missing_args_view;
    let mut out: Vec<MissingArg> = Vec::new();
    let mut i: usize = 0;
    while i < items.len()
        invariant
            i <= items.len(),
            out@.len() == i,
            forall|j: int| 0 <= j < i ==> #[trigger] missing_arg_view(out@[j]) == missing_arg_view(items@[j]),
        decreases items.len() - i,
    {
        proof {
            assert(decreases_to!(items => items@));
            assert(decreases_to!(items@ => items@[i as int]));
        }
        let a = match &items[i] {
            MissingArg::Static { path, segments } => MissingArg::Static {
                path: path.clone(),
                segments: copy_segments(segments),
            },
            MissingArg::Dynamic(n) => MissingArg::Dynamic(n.copy()),
        };
        out.push(a);
        i = i + 1;
    }
    assert(missing_args_view(out@) =~= missing_args_view(items@));
    out
}

/// Copy of a parsed path list.
pub fn copy_static_paths(items: &Vec<(String, Vec<PathSegment>)>) -> (r: Vec<(String, Vec<PathSegment>)>)
    ensures
        static_paths_view(r@) == static_paths_view(items@),
{
    let mut out: Vec<(String, Vec<PathSegment>)> = Vec::new();
    let mut i: usize = 0;
    while i < items.len()
        invariant
            i <= items.len(),
            out@.len() == i,
            forall|j: int| 0 <= j < i ==> #[trigger] out@[j].0@ == items@[j].0@ && segments_view(out@[j].1@) == segments_view(items@[j].1@),
        decreases items.len() - i,
    {
        let entry = &items[i];
        out.push((entry.0.clone(), copy_segments(&entry.1)));
        i = i + 1;
    }
    assert(static_paths_view(out@) =~= static_paths_view(items@));
    out
}

} // verus!

verus! {

/// Model of an optional node.
pub open spec fn opt_node_view(r: Option<CompiledNode>) -> Option<NodeView> {
    match r {
        Some(n) => Some(n@),
        None => None,
    }
}

} // verus!
