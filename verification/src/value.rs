//! The JSON value type that rules and data are made of, and its
//! mathematical model.

use vstd::prelude::*;

verus! {

/// A JSON value. Objects keep their `(key, value)` pairs in order.
#[derive(Debug, PartialEq)]
pub enum DataValue {
    /// JSON `null`.
    Null,
    /// JSON boolean.
    Bool(bool),
    /// JSON integer.
    Number(i64),
    /// JSON string.
    String(String),
    /// JSON array.
    Array(Vec<DataValue>),
    /// JSON object as ordered `(key, value)` pairs.
    Object(Vec<(String, DataValue)>),
}

/// The mathematical model of a [`DataValue`].
pub enum JsonValue {
    Null,
    Bool(bool),
    Number(int),
    Str(Seq<char>),
    Array(Seq<JsonValue>),
    Object(Seq<(Seq<char>, JsonValue)>),
}

/// Model of one value.
pub open spec fn value_view(v: DataValue) -> JsonValue
    decreases v,
{
    match v {
        DataValue::Null => JsonValue::Null,
        DataValue::Bool(b) => JsonValue::Bool(b),
        DataValue::Number(n) => JsonValue::Number(n as int),
        DataValue::String(s) => JsonValue::Str(s@),
        DataValue::Array(items) => JsonValue::Array(values_view(items@)),
        DataValue::Object(pairs) => JsonValue::Object(pairs_view(pairs@)),
    }
}

/// Model of a sequence of values.
pub open spec fn values_view(s: Seq<DataValue>) -> Seq<JsonValue>
    decreases s,
{
    if s.len() == 0 {
        Seq::empty()
    } else {
        values_view(s.subrange(0, s.len() - 1)).push(value_view(s[s.len() - 1]))
    }
}

/// Model of a sequence of object entries.
pub open spec fn pairs_view(s: Seq<(String, DataValue)>) -> Seq<(Seq<char>, JsonValue)>
    decreases s,
{
    if s.len() == 0 {
        Seq::empty()
    } else {
        pairs_view(s.subrange(0, s.len() - 1)).push((s[s.len() - 1].0@, value_view(s[s.len() - 1].1)))
    }
}

impl View for DataValue {
    type V = JsonValue;

    open spec fn view(&self) -> JsonValue {
        value_view(*self)
    }
}

pub broadcast proof fn lemma_values_view(s: Seq<DataValue>)
    ensures
        #[trigger] values_view(s).len() == s.len(),
        forall|i: int| 0 <= i < s.len() ==> #[trigger] values_view(s)[i] == value_view(s[i]),
    decreases s.len(),
{
    if s.len() > 0 {
        lemma_values_view(s.subrange(0, s.len() - 1));
    }
}

pub broadcast proof fn lemma_pairs_view(s: Seq<(String, DataValue)>)
    ensures
        #[trigger] pairs_view(s).len() == s.len(),
        forall|i: int| 0 <= i < s.len() ==> #[trigger] pairs_view(s)[i] == (s[i].0@, value_view(s[i].1)),
    decreases s.len(),
{
    if s.len() > 0 {
        lemma_pairs_view(s.subrange(0, s.len() - 1));
    }
}


impl DataValue {
    /// The `null` value.
    pub fn null() -> (r: DataValue)
        ensures
            r@ == JsonValue::Null,
    {
        DataValue::Null
    }

    /// A boolean value.
    pub fn bool(b: bool) -> (r: DataValue)
        ensures
            r@ == JsonValue::Bool(b),
    {
        DataValue::Bool(b)
    }

    /// An integer value.
    pub fn from_i64(i: i64) -> (r: DataValue)
        ensures
            r@ == JsonValue::Number(i as int),
    {
        DataValue::Number(i)
    }

    /// A string value holding a copy of `s`.
    pub fn from_str(s: &str) -> (r: DataValue)
        ensures
            r@ == JsonValue::Str(s@),
    {
        DataValue::String(s.to_owned())
    }

    /// True iff the value is `null`.
    pub fn is_null(&self) -> (r: bool)
        ensures
            r == (self@ is Null),
    {
        match self {
            DataValue::Null => true,
            _ => false,
        }
    }

    /// The boolean held by a `Bool` value.
    pub fn as_bool(&self) -> (r: Option<bool>)
        ensures
            r == (match self@ {
                JsonValue::Bool(b) => Some(b),
                _ => None::<bool>,
            }),
    {
        match self {
            DataValue::Bool(b) => Some(*b),
            _ => None,
        }
    }

    /// The integer held by a `Number` value.
    pub fn as_i64(&self) -> (r: Option<i64>)
        ensures
            match self@ {
                JsonValue::Number(n) => r is Some && r->0 as int == n,
                _ => r is None,
            },
    {
        match self {
            DataValue::Number(n) => Some(*n),
            _ => None,
        }
    }

    /// The text held by a `String` value.
    pub fn as_str(&self) -> (r: Option<&str>)
        ensures
            match self@ {
                JsonValue::Str(t) => r is Some && r->0@ == t,
                _ => r is None,
            },
    {
        match self {
            DataValue::String(s) => Some(s.as_str()),
            _ => None,
        }
    }

    /// A deep copy of the value.
    pub fn copy(&self) -> (r: DataValue)
        ensures
            r@ == self@,
        decreases self,
    {
        match self {
            DataValue::Null => DataValue::Null,
            DataValue::Bool(b) => DataValue::Bool(*b),
            DataValue::Number(n) => DataValue::Number(*n),
            DataValue::String(s) => DataValue::String(s.clone()),
            DataValue::Array(items) => DataValue::Array(copy_values(items)),
            DataValue::Object(pairs) => DataValue::Object(copy_pairs(pairs)),
        }
    }
}

/// Deep copy of a sequence of values.
pub fn copy_values(items: &Vec<DataValue>) -> (r: Vec<DataValue>)
    ensures
        values_view(r@) == values_view(items@),
    decreases items,
{
    broadcast use lemma_values_view;
    let mut out: Vec<DataValue> = Vec::new();
    let mut i: usize = 0;
    while i < items.len()
        invariant
            i <= items.len(),
            out@.len() == i,
            forall|j: int| 0 <= j < i ==> #[trigger] value_view(out@[j]) == value_view(items@[j]),
        decreases items.len() - i,
    {
        proof {
            assert(decreases_to!(items => items@));
            assert(decreases_to!(items@ => items@[i as int]));
        }
        let c = items[i].copy();
        out.push(c);
        i = i + 1;
    }
    assert(values_view(out@) =~= values_view(items@));
    out
}

/// Deep copy of a sequence of object entries.
pub fn copy_pairs(pairs: &Vec<(String, DataValue)>) -> (r: Vec<(String, DataValue)>)
    ensures
        pairs_view(r@) == pairs_view(pairs@),
    decreases pairs,
{
    broadcast use lemma_pairs_view;
    let mut out: Vec<(String, DataValue)> = Vec::new();
    let mut i: usize = 0;
    while i < pairs.len()
        invariant
            i <= pairs.len(),
            out@.len() == i,
            forall|j: int| 0 <= j < i ==> #[trigger] out@[j].0@ == pairs@[j].0@ && value_view(out@[j].1) == value_view(pairs@[j].1),
        decreases pairs.len() - i,
    {
        let entry = &pairs[i];
        proof {
            assert(decreases_to!(pairs => pairs@));
            assert(decreases_to!(pairs@ => pairs@[i as int]));
            assert(decreases_to!(pairs@[i as int] => pairs@[i as int].1));
        }
        let k = entry.0.clone();
        let v = entry.1.copy();
        out.push((k, v));
        i = i + 1;
    }
    assert(pairs_view(out@) =~= pairs_view(pairs@));
    out
}

} // verus!
