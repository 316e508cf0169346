//! JSON text of values, in the format of `serde_json::to_string`, and the
//! plain-text rendering used by string-building operators.

use vstd::prelude::*;
use crate::strbuf::{push_char, push_str};
use crate::text::{int_text, write_i64};
use crate::value::{DataValue, JsonValue, value_view, values_view, pairs_view, lemma_values_view, lemma_pairs_view};

verus! {

broadcast use {vstd::string::group_string_axioms, lemma_values_view, lemma_pairs_view};

/// Lower-case hexadecimal digit.
pub open spec fn hex_digit(d: nat) -> char {
    if d < 10 {
        crate::text::digit_char(d)
    } else if d == 10 {
        'a'
    } else if d == 11 {
        'b'
    } else if d == 12 {
        'c'
    } else if d == 13 {
        'd'
    } else if d == 14 {
        'e'
    } else {
        'f'
    }
}

/// How one character is written inside a JSON string.
pub open spec fn escape_char(c: char) -> Seq<char> {
    if c == '"' {
        seq!['\\', '"']
    } else if c == '\\' {
        seq!['\\', '\\']
    } else if c == '\n' {
        seq!['\\', 'n']
    } else if c == '\r' {
        seq!['\\', 'r']
    } else if c == '\t' {
        seq!['\\', 't']
    } else if c == '\x08' {
        seq!['\\', 'b']
    } else if c == '\x0c' {
        seq!['\\', 'f']
    } else if (c as u32) < 0x20 {
        seq!['\\', 'u', '0', '0', hex_digit((c as u32 / 16) as nat), hex_digit((c as u32 % 16) as nat)]
    } else {
        seq![c]
    }
}

/// The escaped body of a JSON string.
pub open spec fn escape_text(s: Seq<char>) -> Seq<char>
    decreases s.len(),
{
    if s.len() == 0 {
        Seq::empty()
    } else {
        escape_text(s.drop_last()) + escape_char(s.last())
    }
}

/// A quoted, escaped JSON string.
pub open spec fn json_string(s: Seq<char>) -> Seq<char> {
    seq!['"'] + escape_text(s) + seq!['"']
}

/// The JSON text of a value.
pub open spec fn json_text(v: JsonValue) -> Seq<char>
    decreases v,
{
    match v {
        JsonValue::Null => seq!['n', 'u', 'l', 'l'],
        JsonValue::Bool(b) => if b {
            seq!['t', 'r', 'u', 'e']
        } else {
            seq!['f', 'a', 'l', 's', 'e']
        },
        JsonValue::Number(n) => int_text(n),
        JsonValue::Str(s) => json_string(s),
        JsonValue::Array(items) => seq!['['] + json_items(items) + seq![']'],
        JsonValue::Object(pairs) => seq!['{'] + json_entries(pairs) + seq!['}'],
    }
}

/// Comma-separated JSON texts of array items.
pub open spec fn json_items(items: Seq<JsonValue>) -> Seq<char>
    decreases items,
{
    if items.len() == 0 {
        Seq::empty()
    } else if items.len() == 1 {
        json_text(items[0])
    } else {
        json_items(items.subrange(0, items.len() - 1)) + seq![','] + json_text(items[items.len() - 1])
    }
}

/// Comma-separated `"key":value` texts of object entries.
pub open spec fn json_entries(pairs: Seq<(Seq<char>, JsonValue)>) -> Seq<char>
    decreases pairs,
{
    if pairs.len() == 0 {
        Seq::empty()
    } else if pairs.len() == 1 {
        json_string(pairs[0].0) + seq![':'] + json_text(pairs[0].1)
    } else {
        json_entries(pairs.subrange(0, pairs.len() - 1)) + seq![','] + json_string(
            pairs[pairs.len() - 1].0,
        ) + seq![':'] + json_text(pairs[pairs.len() - 1].1)
    }
}

fn exec_hex_digit(d: u32) -> (c: char)
    requires
        d < 16,
    ensures
        c == hex_digit(d as nat),
{
    match d {
        0 => '0',
        1 => '1',
        2 => '2',
        3 => '3',
        4 => '4',
        5 => '5',
        6 => '6',
        7 => '7',
        8 => '8',
        9 => '9',
        10 => 'a',
        11 => 'b',
        12 => 'c',
        13 => 'd',
        14 => 'e',
        _ => 'f',
    }
}

/// Appends the escaped form of one character.
fn write_escaped_char(buf: &mut String, c: char)
    ensures
        final(buf)@ == old(buf)@ + escape_char(c),
{
    let ghost start = buf@;
    if c == '"' {
        push_char(buf, '\\');
        push_char(buf, '"');
    } else if c == '\\' {
        push_char(buf, '\\');
        push_char(buf, '\\');
    } else if c == '\n' {
        push_char(buf, '\\');
        push_char(buf, 'n');
    } else if c == '\r' {
        push_char(buf, '\\');
        push_char(buf, 'r');
    } else if c == '\t' {
        push_char(buf, '\\');
        push_char(buf, 't');
    } else if c == '\x08' {
        push_char(buf, '\\');
        push_char(buf, 'b');
    } else if c == '\x0c' {
        push_char(buf, '\\');
        push_char(buf, 'f');
    } else if (c as u32) < 0x20 {
        let code = c as u32;
        push_char(buf, '\\');
        push_char(buf, 'u');
        push_char(buf, '0');
        push_char(buf, '0');
        push_char(buf, exec_hex_digit(code / 16));
        push_char(buf, exec_hex_digit(code % 16));
    } else {
        push_char(buf, c);
    }
    assert(buf@ =~= start + escape_char(c));
}

/// Appends `s` as a quoted, escaped JSON string.
pub fn write_json_string(buf: &mut String, s: &str)
    ensures
        final(buf)@ == old(buf)@ + json_string(s@),
{
    let ghost start = buf@;
    push_char(buf, '"');
    for c in it: s.chars()
        invariant
            it.seq() == s@,
            buf@ == start + seq!['"'] + escape_text(s@.take(it.index() as int)),
    {
        proof {
            assert(s@.take(it.index() as int + 1).drop_last() =~= s@.take(it.index() as int));
        }
        write_escaped_char(buf, c);
        proof {
            assert(buf@ =~= start + seq!['"'] + escape_text(s@.take(it.index() as int + 1)));
        }
    }
    push_char(buf, '"');
    proof {
        assert(s@.take(s@.len() as int) =~= s@);
        assert(buf@ =~= start + json_string(s@));
    }
}

/// Appends the JSON text of `v`.
pub fn write_data_json(buf: &mut String, v: &DataValue)
    ensures
        final(buf)@ == old(buf)@ + json_text(v@),
    decreases v,
{
    let ghost start = buf@;
    match v {
        DataValue::Null => {
            push_str(buf, "null");
            proof {
                reveal_strlit("null");
            }
        },
        DataValue::Bool(b) => {
            if *b {
                push_str(buf, "true");
                proof {
                    reveal_strlit("true");
                }
            } else {
                push_str(buf, "false");
                proof {
                    reveal_strlit("false");
                }
            }
        },
        DataValue::Number(n) => {
            write_i64(buf, *n);
        },
        DataValue::String(s) => {
            write_json_string(buf, s.as_str());
        },
        DataValue::Array(items) => {
            push_char(buf, '[');
            write_json_items(buf, items);
            push_char(buf, ']');
        },
        DataValue::Object(pairs) => {
            push_char(buf, '{');
            write_json_entries(buf, pairs);
            push_char(buf, '}');
        },
    }
    assert(buf@ =~= start + json_text(v@));
}

/// Appends the comma-separated JSON texts of `items`.
fn write_json_items(buf: &mut String, items: &Vec<DataValue>)
    ensures
        final(buf)@ == old(buf)@ + json_items(values_view(items@)),
    decreases items,
{
    let ghost start = buf@;
    let ghost vs = values_view(items@);
    let mut i: usize = 0;
    while i < items.len()
        invariant
            i <= items@.len(),
            vs == values_view(items@),
            buf@ == start + json_items(vs.take(i as int)),
        decreases items@.len() - i,
    {
        if i > 0 {
            push_char(buf, ',');
        }
        proof {
            assert(decreases_to!(items => items@));
            assert(decreases_to!(items@ => items@[i as int]));
        }
        write_data_json(buf, &items[i]);
        proof {
            let t = vs.take(i as int + 1);
            lemma_values_view(items@);
            assert(t.subrange(0, t.len() - 1) =~= vs.take(i as int));
            assert(t[t.len() - 1] == value_view(items@[i as int]));
            if i == 0 {
                assert(vs.take(0) =~= Seq::<JsonValue>::empty());
            }
            assert(buf@ =~= start + json_items(t));
        }
        i = i + 1;
    }
    proof {
        assert(vs.take(items@.len() as int) =~= vs);
    }
}

/// Appends the comma-separated `"key":value` texts of `pairs`.
fn write_json_entries(buf: &mut String, pairs: &Vec<(String, DataValue)>)
    ensures
        final(buf)@ == old(buf)@ + json_entries(pairs_view(pairs@)),
    decreases pairs,
{
    let ghost start = buf@;
    let ghost ps = pairs_view(pairs@);
    let mut i: usize = 0;
    while i < pairs.len()
        invariant
            i <= pairs@.len(),
            ps == pairs_view(pairs@),
            buf@ == start + json_entries(ps.take(i as int)),
        decreases pairs@.len() - i,
    {
        if i > 0 {
            push_char(buf, ',');
        }
        let entry = &pairs[i];
        write_json_string(buf, entry.0.as_str());
        push_char(buf, ':');
        proof {
            assert(decreases_to!(pairs => pairs@));
            assert(decreases_to!(pairs@ => pairs@[i as int]));
            assert(decreases_to!(pairs@[i as int] => pairs@[i as int].1));
        }
        write_data_json(buf, &entry.1);
        proof {
            let t = ps.take(i as int + 1);
            lemma_pairs_view(pairs@);
            assert(t.subrange(0, t.len() - 1) =~= ps.take(i as int));
            assert(ps[i as int] == (pairs@[i as int].0@, value_view(pairs@[i as int].1)));
            assert(t[t.len() - 1] == ps[i as int]);
            if i == 0 {
                assert(ps.take(0) =~= Seq::<(Seq<char>, JsonValue)>::empty());
            }
            assert(buf@ =~= start + json_entries(t));
        }
        i = i + 1;
    }
    proof {
        assert(ps.take(pairs@.len() as int) =~= ps);
    }
}

/// The JSON text of `v`.
pub fn data_to_json_string(v: &DataValue) -> (r: String)
    ensures
        r@ == json_text(v@),
{
    let mut buf = String::new();
    write_data_json(&mut buf, v);
    assert(buf@ =~= json_text(v@));
    buf
}

/// The plain text of a value as string operators see it: strings as they
/// are, `null` as the empty string, booleans and numbers as their literal
/// text, arrays and objects as JSON.
pub open spec fn display_text(v: JsonValue) -> Seq<char> {
    match v {
        JsonValue::Str(s) => s,
        JsonValue::Null => Seq::empty(),
        _ => json_text(v),
    }
}

/// The plain text of a value as string operators see it.
pub fn to_display_string(v: &DataValue) -> (r: String)
    ensures
        r@ == display_text(v@),
{
    match v {
        DataValue::String(s) => s.clone(),
        DataValue::Null => String::new(),
        _ => data_to_json_string(v),
    }
}

} // verus!
