//! Path lookup inside JSON values: object-key lookup, one-step and
//! multi-step traversal by pre-parsed segments or by dot-separated text,
//! and the parsing of dot paths into segments.

use vstd::prelude::*;
use crate::text::{parse_usize, spec_parse_usize};
use vstd::string::StringSliceAdditionalSpecFns;
use crate::value::{DataValue, JsonValue, value_view, values_view, pairs_view, lemma_values_view, lemma_pairs_view};

verus! {

broadcast use {vstd::string::group_string_axioms, lemma_values_view, lemma_pairs_view};

/// One pre-parsed step of a path.
#[derive(Debug, PartialEq)]
pub enum PathSegment {
    /// Object field access by key.
    Field(String),
    /// Array element access by index.
    Index(usize),
    /// A numeric segment: object key first, array index otherwise.
    FieldOrIndex(String, usize),
}

/// The mathematical model of a [`PathSegment`].
pub enum SegmentView {
    Field(Seq<char>),
    Index(usize),
    FieldOrIndex(Seq<char>, usize),
}

impl View for PathSegment {
    type V = SegmentView;

    open spec fn view(&self) -> SegmentView {
        match self {
            PathSegment::Field(k) => SegmentView::Field(k@),
            PathSegment::Index(i) => SegmentView::Index(*i),
            PathSegment::FieldOrIndex(k, i) => SegmentView::FieldOrIndex(k@, *i),
        }
    }
}

/// Models of a sequence of segments.
pub open spec fn segments_view(s: Seq<PathSegment>) -> Seq<SegmentView> {
    s.map_values(|p: PathSegment| p@)
}

impl PathSegment {
    /// A copy of the segment.
    pub fn copy(&self) -> (r: PathSegment)
        ensures
            r@ == self@,
    {
        match self {
            PathSegment::Field(k) => PathSegment::Field(k.clone()),
            PathSegment::Index(i) => PathSegment::Index(*i),
            PathSegment::FieldOrIndex(k, i) => PathSegment::FieldOrIndex(k.clone(), *i),
        }
    }
}

/// A copy of a sequence of segments.
pub fn copy_segments(s: &Vec<PathSegment>) -> (r: Vec<PathSegment>)
    ensures
        segments_view(r@) == segments_view(s@),
{
    let mut out: Vec<PathSegment> = Vec::new();
    let mut i: usize = 0;
    while i < s.len()
        invariant
            i <= s.len(),
            out@.len() == i,
            forall|j: int| 0 <= j < i ==> #[trigger] out@[j]@ == s@[j]@,
        decreases s.len() - i,
    {
        out.push(s[i].copy());
        i = i + 1;
    }
    assert(segments_view(out@) =~= segments_view(s@));
    out
}

/// The value under the first entry whose key is `key`.
pub open spec fn lookup_field(pairs: Seq<(Seq<char>, JsonValue)>, key: Seq<char>) -> Option<JsonValue>
    decreases pairs.len(),
{
    if pairs.len() == 0 {
        None
    } else {
        let earlier = lookup_field(pairs.drop_last(), key);
        if earlier is Some {
            earlier
        } else if pairs.last().0 == key {
            Some(pairs.last().1)
        } else {
            None
        }
    }
}

/// One traversal step by a pre-parsed segment.
pub open spec fn step_segment_spec(v: JsonValue, seg: SegmentView) -> Option<JsonValue> {
    match (v, seg) {
        (JsonValue::Object(p), SegmentView::Field(k)) => lookup_field(p, k),
        (JsonValue::Object(p), SegmentView::FieldOrIndex(k, _)) => lookup_field(p, k),
        (JsonValue::Array(items), SegmentView::Index(i)) => if i < items.len() {
            Some(items[i as int])
        } else {
            None
        },
        (JsonValue::Array(items), SegmentView::FieldOrIndex(_, i)) => if i < items.len() {
            Some(items[i as int])
        } else {
            None
        },
        _ => None,
    }
}

/// Walks `segs` from `v`; `None` as soon as a step misses.
pub open spec fn traverse_spec(v: JsonValue, segs: Seq<SegmentView>) -> Option<JsonValue>
    decreases segs.len(),
{
    if segs.len() == 0 {
        Some(v)
    } else {
        match step_segment_spec(v, segs[0]) {
            Some(next) => traverse_spec(next, segs.skip(1)),
            None => None,
        }
    }
}

/// One traversal step by a text segment: a key in an object, a decimal
/// index in an array.
pub open spec fn step_str_spec(v: JsonValue, seg: Seq<char>) -> Option<JsonValue> {
    match v {
        JsonValue::Object(p) => lookup_field(p, seg),
        JsonValue::Array(items) => match spec_parse_usize(seg) {
            Some(i) => if i < items.len() {
                Some(items[i as int])
            } else {
                None
            },
            None => None,
        },
        _ => None,
    }
}

/// The pieces of `s` between the `'.'` separators (at least one piece).
pub open spec fn split_dots(s: Seq<char>) -> Seq<Seq<char>>
    decreases s.len(),
{
    if s.len() == 0 {
        seq![Seq::<char>::empty()]
    } else {
        let r = split_dots(s.drop_last());
        if s.last() == '.' {
            r.push(Seq::<char>::empty())
        } else {
            r.update(r.len() - 1, r.last().push(s.last()))
        }
    }
}

/// Walks text segments from `v`.
pub open spec fn walk_str_spec(v: JsonValue, parts: Seq<Seq<char>>) -> Option<JsonValue>
    decreases parts.len(),
{
    if parts.len() == 0 {
        Some(v)
    } else {
        match step_str_spec(v, parts[0]) {
            Some(next) => walk_str_spec(next, parts.skip(1)),
            None => None,
        }
    }
}

/// Lookup by a dot path: the empty path is the value itself.
pub open spec fn access_path_spec(v: JsonValue, path: Seq<char>) -> Option<JsonValue> {
    if path.len() == 0 {
        Some(v)
    } else {
        walk_str_spec(v, split_dots(path))
    }
}

/// The segment a piece of a dot path compiles to.
pub open spec fn segment_of(part: Seq<char>) -> SegmentView {
    match spec_parse_usize(part) {
        Some(i) => SegmentView::FieldOrIndex(part, i),
        None => SegmentView::Field(part),
    }
}

/// The segments a dot path compiles to.
pub open spec fn parse_path_spec(path: Seq<char>) -> Seq<SegmentView> {
    if path.len() == 0 {
        Seq::empty()
    } else {
        split_dots(path).map_values(|part: Seq<char>| segment_of(part))
    }
}

/// The model of an optional borrowed value.
pub open spec fn opt_view(r: Option<&DataValue>) -> Option<JsonValue> {
    match r {
        Some(x) => Some(x@),
        None => None,
    }
}

/// Key equality: true iff `a` and `b` hold the same characters.
pub fn key_eq(a: &str, b: &str) -> (r: bool)
    ensures
        r == (a@ == b@),
{
    broadcast use vstd::utf8::group_utf8_lib;
    let ab = a.as_bytes();
    let bb = b.as_bytes();
    if ab.len() != bb.len() {
        proof {
            if a@ == b@ {
                assert(a.spec_bytes() == b.spec_bytes());
            }
        }
        return false;
    }
    let n = ab.len();
    let mut i: usize = 0;
    while i < n
        invariant
            n == ab@.len() == bb@.len(),
            ab@ == a.spec_bytes(),
            bb@ == b.spec_bytes(),
            i <= n,
            forall|j: int| 0 <= j < i ==> ab@[j] == bb@[j],
        decreases n - i,
    {
        if ab[i] != bb[i] {
            proof {
                if a@ == b@ {
                    assert(a.spec_bytes() == b.spec_bytes());
                }
            }
            return false;
        }
        i = i + 1;
    }
    proof {
        assert(ab@ =~= bb@);
        assert(a@ == vstd::utf8::decode_utf8(a.spec_bytes()));
        assert(b@ == vstd::utf8::decode_utf8(b.spec_bytes()));
    }
    true
}

/// The value under the first entry of `pairs` whose key is `target`.
pub fn object_lookup_field<'a>(pairs: &'a Vec<(String, DataValue)>, target: &str) -> (r: Option<
    &'a DataValue,
>)
    ensures
        opt_view(r) == lookup_field(pairs_view(pairs@), target@),
{
    let mut i: usize = 0;
    while i < pairs.len()
        invariant
            i <= pairs.len(),
            lookup_field(pairs_view(pairs@.take(i as int)), target@) is None,
        decreases pairs.len() - i,
    {
        let ghost pre = pairs_view(pairs@.take(i as int));
        proof {
            assert(pairs_view(pairs@.take(i as int + 1)).drop_last() =~= pre);
        }
        if key_eq(pairs[i].0.as_str(), target) {
            proof {
                let q = pairs_view(pairs@.take(i as int + 1));
                assert(q.last() == (pairs@[i as int].0@, value_view(pairs@[i as int].1)));
                assert(lookup_field(q, target@) == Some(value_view(pairs@[i as int].1)));
                assert(pairs_view(pairs@).take(i as int + 1) =~= q);
                lemma_lookup_prefix(pairs_view(pairs@), i as int + 1, target@);
            }
            return Some(&pairs[i].1);
        }
        i = i + 1;
    }
    proof {
        assert(pairs@.take(i as int) =~= pairs@);
    }
    None
}

/// A hit in a prefix of the entries is the hit in all of them.
proof fn lemma_lookup_prefix(p: Seq<(Seq<char>, JsonValue)>, k: int, key: Seq<char>)
    requires
        0 <= k <= p.len(),
        lookup_field(p.take(k), key) is Some,
    ensures
        lookup_field(p, key) == lookup_field(p.take(k), key),
    decreases p.len() - k,
{
    if k < p.len() {
        assert(p.take(k + 1).drop_last() =~= p.take(k));
        lemma_lookup_prefix(p, k + 1, key);
    } else {
        assert(p.take(k) =~= p);
    }
}


/// One traversal step by a pre-parsed segment.
pub fn step_segment<'a>(cur: &'a DataValue, seg: &PathSegment) -> (r: Option<&'a DataValue>)
    ensures
        opt_view(r) == step_segment_spec(cur@, seg@),
{
    match (cur, seg) {
        (DataValue::Object(pairs), PathSegment::Field(key)) => {
            assert(cur@ == JsonValue::Object(pairs_view(pairs@)));
            object_lookup_field(pairs, key.as_str())
        },
        (DataValue::Object(pairs), PathSegment::FieldOrIndex(key, _)) => {
            assert(cur@ == JsonValue::Object(pairs_view(pairs@)));
            object_lookup_field(pairs, key.as_str())
        },
        (DataValue::Array(items), PathSegment::Index(idx)) => {
            assert(cur@ == JsonValue::Array(values_view(items@)));
            if *idx < items.len() {
                Some(&items[*idx])
            } else {
                None
            }
        },
        (DataValue::Array(items), PathSegment::FieldOrIndex(_, idx)) => {
            assert(cur@ == JsonValue::Array(values_view(items@)));
            if *idx < items.len() {
                Some(&items[*idx])
            } else {
                None
            }
        },
        _ => None,
    }
}

/// One traversal step by a text segment.
pub fn step_str<'a>(cur: &'a DataValue, seg: &str) -> (r: Option<&'a DataValue>)
    ensures
        opt_view(r) == step_str_spec(cur@, seg@),
{
    match cur {
        DataValue::Object(pairs) => {
            assert(cur@ == JsonValue::Object(pairs_view(pairs@)));
            let r = object_lookup_field(pairs, seg);
            assert(opt_view(r) == lookup_field(pairs_view(pairs@), seg@));
            assert(step_str_spec(cur@, seg@) == lookup_field(pairs_view(pairs@), seg@));
            r
        },
        DataValue::Array(items) => match parse_usize(seg) {
            Some(idx) => {
                assert(cur@ == JsonValue::Array(values_view(items@)));
                if idx < items.len() {
                    Some(&items[idx])
                } else {
                    None
                }
            },
            None => None,
        },
        _ => None,
    }
}

/// Walks `segments` from `av`; `None` as soon as a step misses.
pub fn traverse_segments<'a>(av: &'a DataValue, segments: &[PathSegment]) -> (r: Option<
    &'a DataValue,
>)
    ensures
        opt_view(r) == traverse_spec(av@, segments@.map_values(|p: PathSegment| p@)),
{
    let ghost segs = segments@.map_values(|p: PathSegment| p@);
    let mut cur: &'a DataValue = av;
    let mut i: usize = 0;
    proof {
        assert(segs.skip(0) =~= segs);
    }
    while i < segments.len()
        invariant
            i <= segments@.len(),
            segs == segments@.map_values(|p: PathSegment| p@),
            traverse_spec(av@, segs) == traverse_spec(cur@, segs.skip(i as int)),
        decreases segments@.len() - i,
    {
        proof {
            assert(segs.skip(i as int)[0] == segments@[i as int]@);
            assert(segs.skip(i as int).skip(1) =~= segs.skip(i as int + 1));
        }
        match step_segment(cur, &segments[i]) {
            Some(next) => {
                cur = next;
            },
            None => {
                return None;
            },
        }
        i = i + 1;
    }
    proof {
        assert(segs.skip(i as int) =~= Seq::<SegmentView>::empty());
    }
    Some(cur)
}

/// True iff walking `segments` from `av` reaches a value.
pub fn path_exists_segments(av: &DataValue, segments: &[PathSegment]) -> (r: bool)
    ensures
        r == (traverse_spec(av@, segments@.map_values(|p: PathSegment| p@)) is Some),
{
    traverse_segments(av, segments).is_some()
}

/// The pieces of `path` between its `'.'` separators.
pub fn split_path(path: &str) -> (r: Vec<String>)
    ensures
        r@.map_values(|s: String| s@) == split_dots(path@),
{
    let mut parts: Vec<String> = Vec::new();
    let mut cur = String::new();
    for c in it: path.chars()
        invariant
            it.seq() == path@,
            parts@.map_values(|s: String| s@).push(cur@) == split_dots(path@.take(it.index() as int)),
    {
        let ghost p = path@.take(it.index() as int);
        let ghost before = parts@.map_values(|s: String| s@).push(cur@);
        proof {
            assert(path@.take(it.index() as int + 1).drop_last() =~= p);
            assert(path@.take(it.index() as int + 1).last() == c);
        }
        if c == '.' {
            let mut done = String::new();
            std::mem::swap(&mut done, &mut cur);
            parts.push(done);
            proof {
                assert(parts@.map_values(|s: String| s@).push(cur@) =~= before.push(Seq::<char>::empty()));
            }
        } else {
            crate::strbuf::push_char(&mut cur, c);
            proof {
                assert(parts@.map_values(|s: String| s@).push(cur@) =~= before.update(
                    before.len() - 1,
                    before.last().push(c),
                ));
            }
        }
    }
    parts.push(cur);
    proof {
        assert(path@.take(path@.len() as int) =~= path@);
    }
    parts
}

/// Lookup by a dot path such as `"a.b.0"`; the empty path is `av` itself.
pub fn access_path_str<'a>(av: &'a DataValue, path: &str) -> (r: Option<&'a DataValue>)
    ensures
        opt_view(r) == access_path_spec(av@, path@),
{
    if path.is_empty() {
        return Some(av);
    }
    let parts = split_path(path);
    let ghost ps = parts@.map_values(|s: String| s@);
    let mut cur: &'a DataValue = av;
    let mut i: usize = 0;
    proof {
        assert(ps.skip(0) =~= ps);
    }
    while i < parts.len()
        invariant
            i <= parts@.len(),
            ps == parts@.map_values(|s: String| s@),
            ps == split_dots(path@),
            path@.len() > 0,
            walk_str_spec(av@, ps) == walk_str_spec(cur@, ps.skip(i as int)),
        decreases parts@.len() - i,
    {
        proof {
            assert(ps.skip(i as int)[0] == parts@[i as int]@);
            assert(ps.skip(i as int).skip(1) =~= ps.skip(i as int + 1));
        }
        match step_str(cur, parts[i].as_str()) {
            Some(next) => {
                cur = next;
            },
            None => {
                assert(ps.skip(i as int).len() > 0);
                assert(walk_str_spec(cur@, ps.skip(i as int)) is None);
                assert(path@.len() > 0);
                return None;
            },
        }
        i = i + 1;
    }
    proof {
        assert(ps.skip(i as int) =~= Seq::<Seq<char>>::empty());
    }
    Some(cur)
}

/// True iff the dot path reaches a value.
pub fn path_exists_str(av: &DataValue, path: &str) -> (r: bool)
    ensures
        r == (access_path_spec(av@, path@) is Some),
{
    access_path_str(av, path).is_some()
}

/// The segments a dot path compiles to: each piece is a field, or a
/// field-or-index when it reads as a decimal index.
pub fn parse_path_segments(path: &str) -> (r: Vec<PathSegment>)
    ensures
        r@.map_values(|p: PathSegment| p@) == parse_path_spec(path@),
{
    let mut out: Vec<PathSegment> = Vec::new();
    if path.is_empty() {
        proof {
            assert(out@.map_values(|p: PathSegment| p@) =~= parse_path_spec(path@));
        }
        return out;
    }
    let parts = split_path(path);
    let ghost ps = parts@.map_values(|s: String| s@);
    let mut i: usize = 0;
    while i < parts.len()
        invariant
            i <= parts@.len(),
            ps == parts@.map_values(|s: String| s@),
            out@.len() == i,
            forall|j: int| 0 <= j < i ==> #[trigger] out@[j]@ == segment_of(ps[j]),
        decreases parts@.len() - i,
    {
        let part = &parts[i];
        let seg = match parse_usize(part.as_str()) {
            Some(idx) => PathSegment::FieldOrIndex(part.clone(), idx),
            None => PathSegment::Field(part.clone()),
        };
        out.push(seg);
        i = i + 1;
    }
    proof {
        assert(out@.map_values(|p: PathSegment| p@) =~= parse_path_spec(path@));
    }
    out
}

/// Applies one evaluated path element: a string is a dot path, a
/// non-negative integer an array index (or, on an object, the key it reads
/// as); anything else reaches nothing.
pub fn apply_path_element<'a>(cur: &'a DataValue, elem: &DataValue) -> (r: Option<&'a DataValue>)
    ensures
        opt_view(r) == apply_path_element_spec(cur@, elem@),
{
    match elem {
        DataValue::String(s) => {
            assert(elem@ == JsonValue::Str(s@));
            access_path_str(cur, s.as_str())
        },
        DataValue::Number(i) => {
            if *i < 0 {
                return None;
            }
            assert(elem@ == JsonValue::Number(*i as int));
            match cur {
                DataValue::Array(items) => {
                    assert(cur@ == JsonValue::Array(values_view(items@)));
                    if (*i as u64) < (items.len() as u64) {
                        Some(&items[*i as usize])
                    } else {
                        None
                    }
                },
                DataValue::Object(_) => {
                    let key = crate::text::format_i64(*i);
                    access_path_str(cur, key.as_str())
                },
                _ => None,
            }
        },
        _ => None,
    }
}

/// Model of [`apply_path_element`].
pub open spec fn apply_path_element_spec(cur: JsonValue, elem: JsonValue) -> Option<JsonValue> {
    match elem {
        JsonValue::Str(s) => access_path_spec(cur, s),
        JsonValue::Number(i) => if i < 0 {
            None
        } else {
            match cur {
                JsonValue::Array(items) => if i < items.len() {
                    Some(items[i])
                } else {
                    None
                },
                JsonValue::Object(_) => access_path_spec(cur, crate::text::int_text(i)),
                _ => None,
            }
        },
        _ => None,
    }
}


proof fn lemma_step_str_segment(v: JsonValue, part: Seq<char>)
    ensures
        step_str_spec(v, part) == step_segment_spec(v, segment_of(part)),
{
}

proof fn lemma_walk_traverse(v: JsonValue, parts: Seq<Seq<char>>)
    ensures
        walk_str_spec(v, parts) == traverse_spec(
            v,
            parts.map_values(|part: Seq<char>| segment_of(part)),
        ),
    decreases parts.len(),
{
    let segs = parts.map_values(|part: Seq<char>| segment_of(part));
    if parts.len() > 0 {
        lemma_step_str_segment(v, parts[0]);
        assert(segs.skip(1) =~= parts.skip(1).map_values(|part: Seq<char>| segment_of(part)));
        match step_str_spec(v, parts[0]) {
            Some(next) => lemma_walk_traverse(next, parts.skip(1)),
            None => {},
        }
    }
}

/// Looking a dot path up directly and walking the segments that the path
/// compiles to reach the same value: compiling a path ahead of time does
/// not change what it finds.
pub proof fn law_access_path_matches_compiled_segments(v: JsonValue, path: Seq<char>)
    ensures
        access_path_spec(v, path) == traverse_spec(v, parse_path_spec(path)),
{
    if path.len() > 0 {
        lemma_walk_traverse(v, split_dots(path));
    }
}

/// Walking a concatenation of segment lists is walking the first list and
/// then the second from where the first one ended.
pub proof fn law_traverse_concat(v: JsonValue, a: Seq<SegmentView>, b: Seq<SegmentView>)
    ensures
        traverse_spec(v, a + b) == match traverse_spec(v, a) {
            Some(mid) => traverse_spec(mid, b),
            None => None,
        },
    decreases a.len(),
{
    if a.len() > 0 {
        assert((a + b)[0] == a[0]);
        assert((a + b).skip(1) =~= a.skip(1) + b);
        match step_segment_spec(v, a[0]) {
            Some(next) => law_traverse_concat(next, a.skip(1), b),
            None => {},
        }
    } else {
        assert(a + b =~= b);
    }
}

} // verus!
