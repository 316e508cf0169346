//! Laws of rule evaluation: what the operators give on rules whose
//! arguments are literals, stated directly over the argument values; how
//! truthiness, integer coercion, dot paths and JSON rendering behave; and
//! what compiled rules evaluate to.

use vstd::prelude::*;
use crate::config::{default_config, DivisionByZeroHandling, EvaluationConfig, NumericCoercionConfig, TruthyEvaluator};
use crate::context::FrameView;
use crate::eval::{
    any_item, apply_spec, checked_product, checked_sum, concat_spec, eval_and, eval_coalesce, eval_if, eval_iter, eval_or,
    all_of_kind, key_le, law_sort_is_sorted_permutation, lemma_sort_kind, sort_spec, sortable, sorted_by_key,
    absent, eval_fields, static_missing, val_parts, find_op, missing_args, scope_data, eval_switch, eval_try, first_occ, split_from, is_white, lead_end, trail_start, trim_spec, filter_items, frame_at, switch_pick, map_items, merge_spec, reduce_items, eval_seq, eval_spec, extreme, fits,
    is_strict_op, magnitude, operands_spec, overflow, trunc_rem, EvalError, Operator,
};
use vstd::arithmetic::div_mod::{
    lemma_div_multiples_vanish, lemma_fundamental_div_mod, lemma_mod_multiples_basic, lemma_mod_pos_bound,
};
use crate::json::{escape_char, escape_text, json_items, json_text};
use crate::node::{MetadataHint, MissingArgView, MissingMinView, MissingPathsView, NodeView, ReduceHint};
use crate::path::{
    access_path_spec, law_access_path_matches_compiled_segments, lookup_field, parse_path_spec, segment_of, split_dots,
    traverse_spec, SegmentView,
};
use crate::compile::{
    builtin_spec, compile_args_spec, compile_seq_spec, compile_spec, finish_builtin_spec, invocation_spec, specialise_spec,
};
use crate::opcode::{law_opcode_name_round_trip, opcode_name, OpCode};
use crate::operator::{has_text, occurs_at, throw_literal_spec};
use crate::truthy::{coerce_integer_spec, truthy_spec};
use crate::text::{int_text, lemma_parse_format_i64, spec_parse_i64};
use crate::value::JsonValue;

verus! {

/// The rule `{op: [a, b]}` with two literal arguments.
pub open spec fn binary(op: OpCode, a: JsonValue, b: JsonValue) -> NodeView {
    NodeView::Builtin(op, seq![NodeView::Value(a), NodeView::Value(b)])
}

/// The rule `{op: [a]}` with one literal argument.
pub open spec fn unary(op: OpCode, a: JsonValue) -> NodeView {
    NodeView::Builtin(op, seq![NodeView::Value(a)])
}

/// A strict operator over two literals is applied to their values.
proof fn lemma_binary<O: Operator>(
    op: OpCode,
    a: JsonValue,
    b: JsonValue,
    frames: Seq<FrameView>,
    root: JsonValue,
    cfg: EvaluationConfig,
    ops: Seq<(Seq<char>, O)>,
)
    requires
        is_strict_op(op),
    ensures
        eval_spec(binary(op, a, b), frames, root, cfg, ops) == apply_spec(op, seq![a, b], cfg),
{
    let ns = seq![NodeView::Value(a), NodeView::Value(b)];
    assert(eval_seq(ns, 2, frames, root, cfg, ops) == Ok::<Seq<JsonValue>, EvalError>(Seq::empty()));
    assert(eval_spec(ns[1], frames, root, cfg, ops) == Ok::<JsonValue, EvalError>(b));
    assert(seq![b] + Seq::<JsonValue>::empty() =~= seq![b]);
    assert(eval_seq(ns, 1, frames, root, cfg, ops) == Ok::<Seq<JsonValue>, EvalError>(seq![b]));
    assert(eval_spec(ns[0], frames, root, cfg, ops) == Ok::<JsonValue, EvalError>(a));
    assert(seq![a] + seq![b] =~= seq![a, b]);
    assert(eval_seq(ns, 0, frames, root, cfg, ops) == Ok::<Seq<JsonValue>, EvalError>(seq![a, b]));
}

/// A strict operator over one literal is applied to its value.
proof fn lemma_unary<O: Operator>(
    op: OpCode,
    a: JsonValue,
    frames: Seq<FrameView>,
    root: JsonValue,
    cfg: EvaluationConfig,
    ops: Seq<(Seq<char>, O)>,
)
    requires
        is_strict_op(op),
    ensures
        eval_spec(unary(op, a), frames, root, cfg, ops) == apply_spec(op, seq![a], cfg),
{
    let ns = seq![NodeView::Value(a)];
    assert(eval_seq(ns, 1, frames, root, cfg, ops) == Ok::<Seq<JsonValue>, EvalError>(Seq::empty()));
    assert(eval_spec(ns[0], frames, root, cfg, ops) == Ok::<JsonValue, EvalError>(a));
    assert(seq![a] + Seq::<JsonValue>::empty() =~= seq![a]);
    assert(eval_seq(ns, 0, frames, root, cfg, ops) == Ok::<Seq<JsonValue>, EvalError>(seq![a]));
}

/// Comparing two integers: `<`, `<=`, `>` and `>=` hold exactly when they
/// hold of the integers (so `x <= x` always holds), `==` and `===` exactly
/// when the integers are equal, and `!=` and `!==` exactly when they differ,
/// whatever the data and the settings.
pub proof fn law_integer_comparisons<O: Operator>(
    x: int,
    y: int,
    frames: Seq<FrameView>,
    root: JsonValue,
    cfg: EvaluationConfig,
    ops: Seq<(Seq<char>, O)>,
)
    requires
        fits(x),
        fits(y),
    ensures
        eval_spec(binary(OpCode::LessThan, JsonValue::Number(x), JsonValue::Number(y)), frames, root, cfg, ops)
            == Ok::<JsonValue, EvalError>(JsonValue::Bool(x < y)),
        eval_spec(binary(OpCode::LessThanEqual, JsonValue::Number(x), JsonValue::Number(y)), frames, root, cfg, ops)
            == Ok::<JsonValue, EvalError>(JsonValue::Bool(x <= y)),
        eval_spec(binary(OpCode::GreaterThan, JsonValue::Number(x), JsonValue::Number(y)), frames, root, cfg, ops)
            == Ok::<JsonValue, EvalError>(JsonValue::Bool(x > y)),
        eval_spec(binary(OpCode::GreaterThanEqual, JsonValue::Number(x), JsonValue::Number(y)), frames, root, cfg, ops)
            == Ok::<JsonValue, EvalError>(JsonValue::Bool(x >= y)),
        eval_spec(binary(OpCode::Equals, JsonValue::Number(x), JsonValue::Number(y)), frames, root, cfg, ops)
            == Ok::<JsonValue, EvalError>(JsonValue::Bool(x == y)),
        eval_spec(binary(OpCode::StrictEquals, JsonValue::Number(x), JsonValue::Number(y)), frames, root, cfg, ops)
            == Ok::<JsonValue, EvalError>(JsonValue::Bool(x == y)),
        eval_spec(binary(OpCode::NotEquals, JsonValue::Number(x), JsonValue::Number(y)), frames, root, cfg, ops)
            == Ok::<JsonValue, EvalError>(JsonValue::Bool(x != y)),
        eval_spec(binary(OpCode::StrictNotEquals, JsonValue::Number(x), JsonValue::Number(y)), frames, root, cfg, ops)
            == Ok::<JsonValue, EvalError>(JsonValue::Bool(x != y)),
        eval_spec(binary(OpCode::LessThanEqual, JsonValue::Number(x), JsonValue::Number(x)), frames, root, cfg, ops)
            == Ok::<JsonValue, EvalError>(JsonValue::Bool(true)),
        eval_spec(binary(OpCode::GreaterThanEqual, JsonValue::Number(x), JsonValue::Number(x)), frames, root, cfg, ops)
            == Ok::<JsonValue, EvalError>(JsonValue::Bool(true)),
{
    assert((x as i64) as int == x);
    assert((y as i64) as int == y);
    lemma_binary(OpCode::LessThan, JsonValue::Number(x), JsonValue::Number(y), frames, root, cfg, ops);
    lemma_binary(OpCode::LessThanEqual, JsonValue::Number(x), JsonValue::Number(y), frames, root, cfg, ops);
    lemma_binary(OpCode::GreaterThan, JsonValue::Number(x), JsonValue::Number(y), frames, root, cfg, ops);
    lemma_binary(OpCode::GreaterThanEqual, JsonValue::Number(x), JsonValue::Number(y), frames, root, cfg, ops);
    lemma_binary(OpCode::Equals, JsonValue::Number(x), JsonValue::Number(y), frames, root, cfg, ops);
    lemma_binary(OpCode::StrictEquals, JsonValue::Number(x), JsonValue::Number(y), frames, root, cfg, ops);
    lemma_binary(OpCode::NotEquals, JsonValue::Number(x), JsonValue::Number(y), frames, root, cfg, ops);
    lemma_binary(OpCode::StrictNotEquals, JsonValue::Number(x), JsonValue::Number(y), frames, root, cfg, ops);
    lemma_binary(OpCode::LessThanEqual, JsonValue::Number(x), JsonValue::Number(x), frames, root, cfg, ops);
    lemma_binary(OpCode::GreaterThanEqual, JsonValue::Number(x), JsonValue::Number(x), frames, root, cfg, ops);
}


/// JavaScript and Python truthiness: `null` is false, a boolean is itself,
/// a number is true exactly when it is not zero (every negative number is
/// true), and a string, an array or an object exactly when it is not empty.
/// Under strict boolean truthiness only `null` and `false` are false.
pub proof fn law_truthiness(evaluator: TruthyEvaluator)
    ensures
        evaluator != TruthyEvaluator::StrictBoolean ==> {
            &&& !truthy_spec(JsonValue::Null, evaluator)
            &&& forall|b: bool| #[trigger] truthy_spec(JsonValue::Bool(b), evaluator) == b
            &&& forall|n: int| #[trigger] truthy_spec(JsonValue::Number(n), evaluator) == (n != 0)
            &&& forall|n: int| n < 0 ==> #[trigger] truthy_spec(JsonValue::Number(n), evaluator)
            &&& forall|s: Seq<char>| #[trigger] truthy_spec(JsonValue::Str(s), evaluator) == (s.len() > 0)
            &&& forall|xs: Seq<JsonValue>| #[trigger] truthy_spec(JsonValue::Array(xs), evaluator) == (xs.len() > 0)
            &&& forall|ps: Seq<(Seq<char>, JsonValue)>| #[trigger] truthy_spec(JsonValue::Object(ps), evaluator)
                == (ps.len() > 0)
        },
        evaluator == TruthyEvaluator::StrictBoolean ==> forall|v: JsonValue| #[trigger] truthy_spec(v, evaluator)
            == (v != JsonValue::Null && v != JsonValue::Bool(false)),
{
}

/// `if` on a literal number picks its `then` branch exactly when the number
/// is not zero under JavaScript or Python truthiness, and always under strict
/// boolean truthiness; `!!` of the number says the same, and `!` the opposite.
pub proof fn law_number_condition<O: Operator>(
    n: int,
    then_v: JsonValue,
    else_v: JsonValue,
    frames: Seq<FrameView>,
    root: JsonValue,
    cfg: EvaluationConfig,
    ops: Seq<(Seq<char>, O)>,
)
    ensures
        ({
            let picks = if cfg.truthy_evaluator == TruthyEvaluator::StrictBoolean { true } else { n != 0 };
            &&& eval_spec(
                NodeView::Builtin(
                    OpCode::If,
                    seq![NodeView::Value(JsonValue::Number(n)), NodeView::Value(then_v), NodeView::Value(else_v)],
                ),
                frames,
                root,
                cfg,
                ops,
            ) == Ok::<JsonValue, EvalError>(if picks { then_v } else { else_v })
            &&& eval_spec(unary(OpCode::DoubleNot, JsonValue::Number(n)), frames, root, cfg, ops)
                == Ok::<JsonValue, EvalError>(JsonValue::Bool(picks))
            &&& eval_spec(unary(OpCode::Not, JsonValue::Number(n)), frames, root, cfg, ops)
                == Ok::<JsonValue, EvalError>(JsonValue::Bool(!picks))
        }),
{
    let args = seq![NodeView::Value(JsonValue::Number(n)), NodeView::Value(then_v), NodeView::Value(else_v)];
    assert(eval_spec(args[0], frames, root, cfg, ops) == Ok::<JsonValue, EvalError>(JsonValue::Number(n)));
    assert(eval_spec(args[1], frames, root, cfg, ops) == Ok::<JsonValue, EvalError>(then_v));
    assert(eval_spec(args[2], frames, root, cfg, ops) == Ok::<JsonValue, EvalError>(else_v));
    assert(eval_if(args, 2, frames, root, cfg, ops) == Ok::<JsonValue, EvalError>(else_v));
    let picks = if cfg.truthy_evaluator == TruthyEvaluator::StrictBoolean { true } else { n != 0 };
    assert(truthy_spec(JsonValue::Number(n), cfg.truthy_evaluator) == picks);
    assert(eval_if(args, 0, frames, root, cfg, ops) == Ok::<JsonValue, EvalError>(if picks { then_v } else { else_v }));
    lemma_unary(OpCode::DoubleNot, JsonValue::Number(n), frames, root, cfg, ops);
    lemma_unary(OpCode::Not, JsonValue::Number(n), frames, root, cfg, ops);
}

/// Integer coercion: a number in range is itself; with `bool_to_number` on,
/// `false` is 0 and `true` is 1, and with it off a boolean does not coerce;
/// with `null_to_zero` on, `null` is 0, and with it off `null` does not
/// coerce; with `empty_string_to_zero` on, `""` is 0; arrays and objects
/// never coerce.
pub proof fn law_integer_coercion(cfg: NumericCoercionConfig)
    ensures
        forall|n: int| fits(n) ==> (#[trigger] coerce_integer_spec(JsonValue::Number(n), cfg) matches Some(k) && k
            == n),
        cfg.bool_to_number ==> coerce_integer_spec(JsonValue::Bool(false), cfg) == Some(0i64),
        cfg.bool_to_number ==> coerce_integer_spec(JsonValue::Bool(true), cfg) == Some(1i64),
        !cfg.bool_to_number ==> forall|b: bool| #[trigger] coerce_integer_spec(JsonValue::Bool(b), cfg) is None,
        coerce_integer_spec(JsonValue::Null, cfg) == (if cfg.null_to_zero { Some(0i64) } else { None }),
        coerce_integer_spec(JsonValue::Str(Seq::empty()), cfg) == (if cfg.empty_string_to_zero {
            Some(0i64)
        } else {
            None
        }),
        forall|n: i64| #[trigger] coerce_integer_spec(JsonValue::Str(int_text(n as int)), cfg) == Some(n),
        forall|xs: Seq<JsonValue>| #[trigger] coerce_integer_spec(JsonValue::Array(xs), cfg) is None,
        forall|ps: Seq<(Seq<char>, JsonValue)>| #[trigger] coerce_integer_spec(JsonValue::Object(ps), cfg) is None,
{
    assert forall|n: i64| #[trigger] coerce_integer_spec(JsonValue::Str(int_text(n as int)), cfg) == Some(n) by {
        lemma_parse_format_i64(n);
        lemma_int_text_nonempty(n);
    }
    lemma_empty_is_no_integer();
    assert forall|n: int| fits(n) implies (#[trigger] coerce_integer_spec(JsonValue::Number(n), cfg) matches Some(
        k,
    ) && k == n) by {
        assert((n as i64) as int == n);
    }
}

/// `starts_with` on two strings is true exactly when the second is a prefix
/// of the first, and `ends_with` exactly when it is a suffix: a text that
/// occurs only inside the first, and not at that end, gives false.
pub proof fn law_starts_ends_with<O: Operator>(
    a: Seq<char>,
    b: Seq<char>,
    frames: Seq<FrameView>,
    root: JsonValue,
    cfg: EvaluationConfig,
    ops: Seq<(Seq<char>, O)>,
)
    ensures
        eval_spec(binary(OpCode::StartsWith, JsonValue::Str(a), JsonValue::Str(b)), frames, root, cfg, ops)
            == Ok::<JsonValue, EvalError>(JsonValue::Bool(b.len() <= a.len() && a.subrange(0, b.len() as int) == b)),
        eval_spec(binary(OpCode::EndsWith, JsonValue::Str(a), JsonValue::Str(b)), frames, root, cfg, ops)
            == Ok::<JsonValue, EvalError>(
            JsonValue::Bool(b.len() <= a.len() && a.subrange(a.len() - b.len(), a.len() as int) == b),
        ),
        eval_spec(binary(OpCode::StartsWith, JsonValue::Str(a + b), JsonValue::Str(a)), frames, root, cfg, ops)
            == Ok::<JsonValue, EvalError>(JsonValue::Bool(true)),
        eval_spec(binary(OpCode::EndsWith, JsonValue::Str(a + b), JsonValue::Str(b)), frames, root, cfg, ops)
            == Ok::<JsonValue, EvalError>(JsonValue::Bool(true)),
{
    lemma_binary(OpCode::StartsWith, JsonValue::Str(a), JsonValue::Str(b), frames, root, cfg, ops);
    lemma_binary(OpCode::EndsWith, JsonValue::Str(a), JsonValue::Str(b), frames, root, cfg, ops);
    lemma_binary(OpCode::StartsWith, JsonValue::Str(a + b), JsonValue::Str(a), frames, root, cfg, ops);
    lemma_binary(OpCode::EndsWith, JsonValue::Str(a + b), JsonValue::Str(b), frames, root, cfg, ops);
    if b.len() <= a.len() {
        assert(b.is_prefix_of(a) == (a.subrange(0, b.len() as int) == b)) by {
            if a.subrange(0, b.len() as int) =~= b {
            }
        }
    }
    assert((a + b).subrange(0, a.len() as int) =~= a);
    assert((a + b).subrange((a + b).len() - b.len(), (a + b).len() as int) =~= b);
}

/// Whether, from `i` on, some element's test value has truthiness `want`,
/// when every element's test evaluates to the value in `tests`.
proof fn lemma_any_item<O: Operator>(
    body: NodeView,
    xs: Seq<JsonValue>,
    tests: Seq<JsonValue>,
    i: nat,
    want: bool,
    frames: Seq<FrameView>,
    root: JsonValue,
    cfg: EvaluationConfig,
    ops: Seq<(Seq<char>, O)>,
)
    requires
        tests.len() == xs.len(),
        i <= xs.len(),
        forall|j: int|
            0 <= j < xs.len() ==> eval_spec(body, frames.push(FrameView::Indexed(xs[j], j as usize)), root, cfg, ops)
                == Ok::<JsonValue, EvalError>(#[trigger] tests[j]),
    ensures
        any_item(body, xs, i, want, frames, root, cfg, ops) == Ok::<bool, EvalError>(
            exists|j: int| i <= j < xs.len() && truthy_spec(#[trigger] tests[j], cfg.truthy_evaluator) == want,
        ),
    decreases xs.len() - i,
{
    if i < xs.len() {
        lemma_any_item(body, xs, tests, i + 1, want, frames, root, cfg, ops);
        let t = tests[i as int];
        assert(eval_spec(body, frames.push(FrameView::Indexed(xs[i as int], i as usize)), root, cfg, ops)
            == Ok::<JsonValue, EvalError>(t));
        if truthy_spec(t, cfg.truthy_evaluator) != want {
            assert forall|j: int| i <= j < xs.len() && truthy_spec(#[trigger] tests[j], cfg.truthy_evaluator) == want
                implies i + 1 <= j by {
            }
        }
    }
}

/// `all`, `some` and `none` over an array whose every element's test
/// evaluates without error: `all` is true exactly when the array is not
/// empty and every test value is truthy (so it is true for a non-empty array
/// whose every element passes, whatever its length), `some` exactly when one
/// test value is truthy, and `none` exactly when none is.
pub proof fn law_all_some_none<O: Operator>(
    xs: Seq<JsonValue>,
    body: NodeView,
    tests: Seq<JsonValue>,
    frames: Seq<FrameView>,
    root: JsonValue,
    cfg: EvaluationConfig,
    ops: Seq<(Seq<char>, O)>,
)
    requires
        tests.len() == xs.len(),
        forall|j: int|
            0 <= j < xs.len() ==> eval_spec(body, frames.push(FrameView::Indexed(xs[j], j as usize)), root, cfg, ops)
                == Ok::<JsonValue, EvalError>(#[trigger] tests[j]),
    ensures
        eval_spec(
            NodeView::Builtin(OpCode::All, seq![NodeView::Value(JsonValue::Array(xs)), body]),
            frames,
            root,
            cfg,
            ops,
        ) == Ok::<JsonValue, EvalError>(
            JsonValue::Bool(
                xs.len() > 0 && forall|j: int| 0 <= j < xs.len() ==> truthy_spec(#[trigger] tests[j], cfg.truthy_evaluator),
            ),
        ),
        eval_spec(
            NodeView::Builtin(OpCode::SomeOf, seq![NodeView::Value(JsonValue::Array(xs)), body]),
            frames,
            root,
            cfg,
            ops,
        ) == Ok::<JsonValue, EvalError>(
            JsonValue::Bool(exists|j: int| 0 <= j < xs.len() && truthy_spec(#[trigger] tests[j], cfg.truthy_evaluator)),
        ),
        eval_spec(
            NodeView::Builtin(OpCode::NoneOf, seq![NodeView::Value(JsonValue::Array(xs)), body]),
            frames,
            root,
            cfg,
            ops,
        ) == Ok::<JsonValue, EvalError>(
            JsonValue::Bool(
                !exists|j: int| 0 <= j < xs.len() && truthy_spec(#[trigger] tests[j], cfg.truthy_evaluator),
            ),
        ),
{
    let args = seq![NodeView::Value(JsonValue::Array(xs)), body];
    assert(eval_spec(args[0], frames, root, cfg, ops) == Ok::<JsonValue, EvalError>(JsonValue::Array(xs)));
    lemma_any_item(body, xs, tests, 0, false, frames, root, cfg, ops);
    lemma_any_item(body, xs, tests, 0, true, frames, root, cfg, ops);
    let all_true = forall|j: int| 0 <= j < xs.len() ==> truthy_spec(#[trigger] tests[j], cfg.truthy_evaluator);
    let one_false = exists|j: int| 0 <= j < xs.len() && truthy_spec(#[trigger] tests[j], cfg.truthy_evaluator) == false;
    assert(all_true == !one_false);
    assert(eval_iter(OpCode::All, args, frames, root, cfg, ops) == Ok::<JsonValue, EvalError>(
        JsonValue::Bool(xs.len() > 0 && all_true)));
    assert(eval_iter(OpCode::SomeOf, args, frames, root, cfg, ops) == Ok::<JsonValue, EvalError>(
        JsonValue::Bool(exists|j: int| 0 <= j < xs.len() && truthy_spec(#[trigger] tests[j], cfg.truthy_evaluator))));
    assert(eval_iter(OpCode::NoneOf, args, frames, root, cfg, ops) == Ok::<JsonValue, EvalError>(
        JsonValue::Bool(!exists|j: int| 0 <= j < xs.len() && truthy_spec(#[trigger] tests[j], cfg.truthy_evaluator))));
}

/// The numeric operands of two values that coerce to `x` and `y`.
proof fn lemma_two_operands(a: JsonValue, b: JsonValue, x: i64, y: i64, cfg: EvaluationConfig)
    requires
        coerce_integer_spec(a, cfg.numeric_coercion) == Some(x),
        coerce_integer_spec(b, cfg.numeric_coercion) == Some(y),
    ensures
        operands_spec(seq![a, b], 0, cfg) == Ok::<Option<Seq<i64>>, EvalError>(Some(seq![x, y])),
{
    let vs = seq![a, b];
    assert(operands_spec(vs, 2, cfg) == Ok::<Option<Seq<i64>>, EvalError>(Some(Seq::empty())));
    assert(seq![y] + Seq::<i64>::empty() =~= seq![y]);
    assert(operands_spec(vs, 1, cfg) == Ok::<Option<Seq<i64>>, EvalError>(Some(seq![y])));
    assert(seq![x] + seq![y] =~= seq![x, y]);
}

/// Arithmetic on two values that coerce to the integers `x` and `y`: `+`,
/// `-` and `*` give the sum, the difference and the product when it fits in
/// 64 bits and fail otherwise; `min` gives the smaller and `max` the larger.
pub proof fn law_two_operand_arithmetic<O: Operator>(
    a: JsonValue,
    b: JsonValue,
    x: i64,
    y: i64,
    frames: Seq<FrameView>,
    root: JsonValue,
    cfg: EvaluationConfig,
    ops: Seq<(Seq<char>, O)>,
)
    requires
        coerce_integer_spec(a, cfg.numeric_coercion) == Some(x),
        coerce_integer_spec(b, cfg.numeric_coercion) == Some(y),
    ensures
        eval_spec(binary(OpCode::Add, a, b), frames, root, cfg, ops) == (if fits(x + y) {
            Ok::<JsonValue, EvalError>(JsonValue::Number(x + y))
        } else {
            Err(overflow())
        }),
        eval_spec(binary(OpCode::Subtract, a, b), frames, root, cfg, ops) == (if fits(x - y) {
            Ok::<JsonValue, EvalError>(JsonValue::Number(x - y))
        } else {
            Err(overflow())
        }),
        eval_spec(binary(OpCode::Multiply, a, b), frames, root, cfg, ops) == (if fits(x * y) {
            Ok::<JsonValue, EvalError>(JsonValue::Number(x * y))
        } else {
            Err(overflow())
        }),
        eval_spec(binary(OpCode::Min, a, b), frames, root, cfg, ops) matches Ok(JsonValue::Number(m)) && m <= x && m
            <= y && (m == x || m == y),
        eval_spec(binary(OpCode::Max, a, b), frames, root, cfg, ops) matches Ok(JsonValue::Number(m)) && m >= x && m
            >= y && (m == x || m == y),
{
    let xs = seq![x, y];
    lemma_two_operands(a, b, x, y, cfg);
    lemma_binary(OpCode::Add, a, b, frames, root, cfg, ops);
    lemma_binary(OpCode::Subtract, a, b, frames, root, cfg, ops);
    lemma_binary(OpCode::Multiply, a, b, frames, root, cfg, ops);
    lemma_binary(OpCode::Min, a, b, frames, root, cfg, ops);
    lemma_binary(OpCode::Max, a, b, frames, root, cfg, ops);
    assert(checked_sum(x + y, xs, 2) == Some(x + y));
    assert(checked_sum(0, xs, 0) == checked_sum(x as int, xs, 1));
    assert(checked_sum(x as int, xs, 1) == (if fits(x + y) { Some(x + y) } else { None }));
    assert(1 * x == x);
    assert(checked_product(x * y, xs, 2) == Some(x * y));
    assert(checked_product(1, xs, 0) == checked_product(x as int, xs, 1));
    assert(checked_product(x as int, xs, 1) == (if fits(x * y) { Some(x * y) } else { None }));
    let lo: int = if y < x { y as int } else { x as int };
    let hi: int = if y > x { y as int } else { x as int };
    assert(extreme(false, lo, xs, 2) == lo);
    assert(extreme(true, hi, xs, 2) == hi);
}

/// `+` of two booleans, with `bool_to_number` on, counts the `true`s among
/// them: `false` adds 0 and `true` adds 1.
pub proof fn law_boolean_sum<O: Operator>(
    p: bool,
    q: bool,
    frames: Seq<FrameView>,
    root: JsonValue,
    cfg: EvaluationConfig,
    ops: Seq<(Seq<char>, O)>,
)
    requires
        cfg.numeric_coercion.bool_to_number,
    ensures
        eval_spec(binary(OpCode::Add, JsonValue::Bool(p), JsonValue::Bool(q)), frames, root, cfg, ops)
            == Ok::<JsonValue, EvalError>(
            JsonValue::Number(if p && q { 2 } else if p || q { 1 } else { 0 }),
        ),
        eval_spec(binary(OpCode::Add, JsonValue::Bool(true), JsonValue::Bool(false)), frames, root, cfg, ops)
            == Ok::<JsonValue, EvalError>(JsonValue::Number(1)),
{
    law_integer_coercion(cfg.numeric_coercion);
    let x: i64 = if p { 1 } else { 0 };
    let y: i64 = if q { 1 } else { 0 };
    law_two_operand_arithmetic(JsonValue::Bool(p), JsonValue::Bool(q), x, y, frames, root, cfg, ops);
    law_two_operand_arithmetic(JsonValue::Bool(true), JsonValue::Bool(false), 1, 0, frames, root, cfg, ops);
}

/// An exact quotient `q` of `x` by `y` is what `/` computes from the
/// magnitudes and the signs.
proof fn lemma_exact_quotient(x: int, y: int, q: int)
    requires
        y != 0,
        x == q * y,
    ensures
        magnitude(x) % magnitude(y) == 0,
        (if (x < 0) == (y < 0) {
            magnitude(x) / magnitude(y)
        } else {
            -(magnitude(x) / magnitude(y))
        }) == q,
{
    let ma = magnitude(x);
    let mb = magnitude(y);
    let mq = magnitude(q);
    assert(ma == mq * mb) by (nonlinear_arith)
        requires
            x == q * y,
            ma == (if x < 0 { -x } else { x }),
            mb == (if y < 0 { -y } else { y }),
            mq == (if q < 0 { -q } else { q }),
    ;
    lemma_mod_multiples_basic(mq, mb);
    lemma_div_multiples_vanish(mq, mb);
    assert(mb * mq == mq * mb) by (nonlinear_arith);
    assert(x == 0 ==> q == 0) by (nonlinear_arith)
        requires
            x == q * y,
            y != 0,
    ;
    assert(x > 0 && y > 0 ==> q > 0) by (nonlinear_arith)
        requires
            x == q * y,
    ;
    assert(x < 0 && y < 0 ==> q > 0) by (nonlinear_arith)
        requires
            x == q * y,
    ;
    assert(x > 0 && y < 0 ==> q < 0) by (nonlinear_arith)
        requires
            x == q * y,
    ;
    assert(x < 0 && y > 0 ==> q < 0) by (nonlinear_arith)
        requires
            x == q * y,
    ;
}

/// When the magnitudes divide, the signed quotient is an exact quotient.
proof fn lemma_quotient_exists(x: int, y: int)
    requires
        y != 0,
        magnitude(x) % magnitude(y) == 0,
    ensures
        x == (if (x < 0) == (y < 0) {
            magnitude(x) / magnitude(y)
        } else {
            -(magnitude(x) / magnitude(y))
        }) * y,
{
    let ma = magnitude(x);
    let mb = magnitude(y);
    let k = ma / mb;
    lemma_fundamental_div_mod(ma, mb);
    assert(ma == mb * k);
    let q = if (x < 0) == (y < 0) { k } else { -k };
    assert(x == q * y) by (nonlinear_arith)
        requires
            ma == mb * k,
            ma == (if x < 0 { -x } else { x }),
            mb == (if y < 0 { -y } else { y }),
            q == (if (x < 0) == (y < 0) { k } else { -k }),
    ;
}

/// The truncating remainder: `x == q * y + r` for some `q`, `r` smaller in
/// magnitude than `y`, and zero or of the sign of `x`.
proof fn lemma_trunc_rem(x: int, y: int) -> (q: int)
    requires
        y != 0,
    ensures
        x == q * y + trunc_rem(x, y),
        -magnitude(y) < trunc_rem(x, y) < magnitude(y),
        trunc_rem(x, y) == 0 || (trunc_rem(x, y) > 0) == (x > 0),
{
    let mb = magnitude(y);
    let r = trunc_rem(x, y);
    if x >= 0 {
        lemma_fundamental_div_mod(x, mb);
        lemma_mod_pos_bound(x, mb);
        let k = x / mb;
        assert(x == mb * k + r);
        let q = if y > 0 { k } else { -k };
        assert(x == q * y + r) by (nonlinear_arith)
            requires
                x == mb * k + r,
                mb == (if y < 0 { -y } else { y }),
                q == (if y > 0 { k } else { -k }),
        ;
        if x == 0 {
            assert(0int % mb == 0) by (nonlinear_arith)
                requires
                    mb > 0,
            ;
        }
        q
    } else {
        let nx = -x;
        lemma_fundamental_div_mod(nx, mb);
        lemma_mod_pos_bound(nx, mb);
        let k = nx / mb;
        assert(nx == mb * k + nx % mb);
        let q = if y > 0 { -k } else { k };
        assert(x == q * y + r) by (nonlinear_arith)
            requires
                nx == mb * k + nx % mb,
                nx == -x,
                r == -(nx % mb),
                mb == (if y < 0 { -y } else { y }),
                q == (if y > 0 { -k } else { k }),
        ;
        q
    }
}

/// Division and remainder of two values that coerce to the integers `x`
/// and `y`. With `y` not zero, `/` gives `q` exactly when `x == q * y` (and
/// `q` fits in 64 bits), and fails when no integer `q` has `x == q * y`;
/// `%` gives a remainder `r` with `x == q * y + r` for some integer `q`,
/// `r` smaller in magnitude than `y` and zero or of the sign of `x`. With
/// `y` zero, both fail when division by zero is set to raise an error, and
/// both give `null` when it is set to give `null`.
pub proof fn law_two_operand_division<O: Operator>(
    a: JsonValue,
    b: JsonValue,
    x: i64,
    y: i64,
    frames: Seq<FrameView>,
    root: JsonValue,
    cfg: EvaluationConfig,
    ops: Seq<(Seq<char>, O)>,
)
    requires
        coerce_integer_spec(a, cfg.numeric_coercion) == Some(x),
        coerce_integer_spec(b, cfg.numeric_coercion) == Some(y),
    ensures
        forall|q: int|
            y != 0 && x == #[trigger] (q * y) && fits(q) ==> eval_spec(binary(OpCode::Divide, a, b), frames, root, cfg, ops)
                == Ok::<JsonValue, EvalError>(JsonValue::Number(q)),
        y != 0 && (forall|q: int| x != #[trigger] (q * y)) ==> eval_spec(
            binary(OpCode::Divide, a, b),
            frames,
            root,
            cfg,
            ops,
        ) is Err,
        y != 0 ==> (eval_spec(binary(OpCode::Modulo, a, b), frames, root, cfg, ops) matches Ok(JsonValue::Number(r))
            && (if y < 0 { y < r < -y } else { -y < r < y }) && (r == 0 || (r > 0) == (x > 0)) && exists|q: int|
            x == #[trigger] (q * y) + r),
        y == 0 && cfg.division_by_zero == DivisionByZeroHandling::ThrowError ==> {
            &&& eval_spec(binary(OpCode::Divide, a, b), frames, root, cfg, ops) == Err::<JsonValue, EvalError>(
                EvalError::ArithmeticError("Division by zero"@),
            )
            &&& eval_spec(binary(OpCode::Modulo, a, b), frames, root, cfg, ops) == Err::<JsonValue, EvalError>(
                EvalError::ArithmeticError("Division by zero"@),
            )
        },
        y == 0 && cfg.division_by_zero == DivisionByZeroHandling::ReturnNull ==> {
            &&& eval_spec(binary(OpCode::Divide, a, b), frames, root, cfg, ops) == Ok::<JsonValue, EvalError>(
                JsonValue::Null,
            )
            &&& eval_spec(binary(OpCode::Modulo, a, b), frames, root, cfg, ops) == Ok::<JsonValue, EvalError>(
                JsonValue::Null,
            )
        },
{
    lemma_two_operands(a, b, x, y, cfg);
    lemma_binary(OpCode::Divide, a, b, frames, root, cfg, ops);
    lemma_binary(OpCode::Modulo, a, b, frames, root, cfg, ops);
    assert forall|q: int|
        y != 0 && x == #[trigger] (q * y) && fits(q) implies eval_spec(
        binary(OpCode::Divide, a, b),
        frames,
        root,
        cfg,
        ops,
    ) == Ok::<JsonValue, EvalError>(JsonValue::Number(q)) by {
        lemma_exact_quotient(x as int, y as int, q);
    }
    if y != 0 {
        if magnitude(x as int) % magnitude(y as int) == 0 {
            lemma_quotient_exists(x as int, y as int);
        }
        let q = lemma_trunc_rem(x as int, y as int);
        assert(x == q * y + trunc_rem(x as int, y as int));
    }
}

/// The rule `{op: [a, b, c]}` with three literal arguments.
pub open spec fn ternary(op: OpCode, a: JsonValue, b: JsonValue, c: JsonValue) -> NodeView {
    NodeView::Builtin(op, seq![NodeView::Value(a), NodeView::Value(b), NodeView::Value(c)])
}

/// A strict operator over three literals is applied to their values.
proof fn lemma_ternary<O: Operator>(
    op: OpCode,
    a: JsonValue,
    b: JsonValue,
    c: JsonValue,
    frames: Seq<FrameView>,
    root: JsonValue,
    cfg: EvaluationConfig,
    ops: Seq<(Seq<char>, O)>,
)
    requires
        is_strict_op(op),
    ensures
        eval_spec(ternary(op, a, b, c), frames, root, cfg, ops) == apply_spec(op, seq![a, b, c], cfg),
{
    let ns = seq![NodeView::Value(a), NodeView::Value(b), NodeView::Value(c)];
    assert(eval_seq(ns, 3, frames, root, cfg, ops) == Ok::<Seq<JsonValue>, EvalError>(Seq::empty()));
    assert(eval_spec(ns[2], frames, root, cfg, ops) == Ok::<JsonValue, EvalError>(c));
    assert(seq![c] + Seq::<JsonValue>::empty() =~= seq![c]);
    assert(eval_seq(ns, 2, frames, root, cfg, ops) == Ok::<Seq<JsonValue>, EvalError>(seq![c]));
    assert(eval_spec(ns[1], frames, root, cfg, ops) == Ok::<JsonValue, EvalError>(b));
    assert(seq![b] + seq![c] =~= seq![b, c]);
    assert(eval_seq(ns, 1, frames, root, cfg, ops) == Ok::<Seq<JsonValue>, EvalError>(seq![b, c]));
    assert(eval_spec(ns[0], frames, root, cfg, ops) == Ok::<JsonValue, EvalError>(a));
    assert(seq![a] + seq![b, c] =~= seq![a, b, c]);
    assert(eval_seq(ns, 0, frames, root, cfg, ops) == Ok::<Seq<JsonValue>, EvalError>(seq![a, b, c]));
}

/// The control operators over literals: `if` gives its `then` value when
/// the condition is truthy and its `else` value otherwise; `and` gives its
/// first argument when that is falsy and its second otherwise; `or` gives
/// its first argument when that is truthy and its second otherwise; `??`
/// gives its first argument unless that is `null`; `try` gives its first
/// argument's value, and the second when the first throws.
pub proof fn law_control_operators<O: Operator>(
    a: JsonValue,
    b: JsonValue,
    c: JsonValue,
    frames: Seq<FrameView>,
    root: JsonValue,
    cfg: EvaluationConfig,
    ops: Seq<(Seq<char>, O)>,
)
    ensures
        eval_spec(ternary(OpCode::If, a, b, c), frames, root, cfg, ops) == Ok::<JsonValue, EvalError>(
            if truthy_spec(a, cfg.truthy_evaluator) { b } else { c },
        ),
        eval_spec(binary(OpCode::And, a, b), frames, root, cfg, ops) == Ok::<JsonValue, EvalError>(
            if truthy_spec(a, cfg.truthy_evaluator) { b } else { a },
        ),
        eval_spec(binary(OpCode::Or, a, b), frames, root, cfg, ops) == Ok::<JsonValue, EvalError>(
            if truthy_spec(a, cfg.truthy_evaluator) { a } else { b },
        ),
        eval_spec(binary(OpCode::Coalesce, a, b), frames, root, cfg, ops) == Ok::<JsonValue, EvalError>(
            if a == JsonValue::Null { b } else { a },
        ),
        eval_spec(binary(OpCode::Try, a, b), frames, root, cfg, ops) == Ok::<JsonValue, EvalError>(a),
        eval_spec(
            NodeView::Builtin(OpCode::Try, seq![NodeView::Throw(a), NodeView::Value(b)]),
            frames,
            root,
            cfg,
            ops,
        ) == Ok::<JsonValue, EvalError>(b),
{
    let three = seq![NodeView::Value(a), NodeView::Value(b), NodeView::Value(c)];
    assert(eval_spec(three[0], frames, root, cfg, ops) == Ok::<JsonValue, EvalError>(a));
    assert(eval_spec(three[1], frames, root, cfg, ops) == Ok::<JsonValue, EvalError>(b));
    assert(eval_spec(three[2], frames, root, cfg, ops) == Ok::<JsonValue, EvalError>(c));
    assert(eval_if(three, 2, frames, root, cfg, ops) == Ok::<JsonValue, EvalError>(c));
    assert(eval_if(three, 0, frames, root, cfg, ops) == Ok::<JsonValue, EvalError>(
        if truthy_spec(a, cfg.truthy_evaluator) { b } else { c },
    ));
    let two = seq![NodeView::Value(a), NodeView::Value(b)];
    assert(eval_spec(two[0], frames, root, cfg, ops) == Ok::<JsonValue, EvalError>(a));
    assert(eval_spec(two[1], frames, root, cfg, ops) == Ok::<JsonValue, EvalError>(b));
    assert(eval_and(two, 1, frames, root, cfg, ops) == Ok::<JsonValue, EvalError>(b));
    assert(eval_or(two, 1, frames, root, cfg, ops) == Ok::<JsonValue, EvalError>(b));
    assert(eval_coalesce(two, 2, frames, root, cfg, ops) == Ok::<JsonValue, EvalError>(JsonValue::Null));
    assert(eval_coalesce(two, 1, frames, root, cfg, ops) == Ok::<JsonValue, EvalError>(b));
    assert(eval_and(two, 0, frames, root, cfg, ops) == Ok::<JsonValue, EvalError>(
        if truthy_spec(a, cfg.truthy_evaluator) { b } else { a },
    ));
    assert(eval_or(two, 0, frames, root, cfg, ops) == Ok::<JsonValue, EvalError>(
        if truthy_spec(a, cfg.truthy_evaluator) { a } else { b },
    ));
    assert(eval_coalesce(two, 0, frames, root, cfg, ops) == Ok::<JsonValue, EvalError>(
        if a == JsonValue::Null { b } else { a },
    ));
    assert(eval_try(two, 0, frames, root, cfg, ops) == Ok::<JsonValue, EvalError>(a));
    let thrown = seq![NodeView::Throw(a), NodeView::Value(b)];
    assert(eval_spec(thrown[0], frames, root, cfg, ops) == Err::<JsonValue, EvalError>(EvalError::Thrown(a)));
    assert(eval_spec(thrown[1], frames, root, cfg, ops) == Ok::<JsonValue, EvalError>(b));
    assert(eval_try(thrown, 1, frames, root, cfg, ops) == Ok::<JsonValue, EvalError>(b));
    assert(eval_try(thrown, 0, frames, root, cfg, ops) == Ok::<JsonValue, EvalError>(b));
}

/// The text operators on strings: `cat` joins them, `in` tells whether the
/// first occurs somewhere in the second, and `length` counts the
/// characters.
pub proof fn law_text_operators<O: Operator>(
    a: Seq<char>,
    b: Seq<char>,
    frames: Seq<FrameView>,
    root: JsonValue,
    cfg: EvaluationConfig,
    ops: Seq<(Seq<char>, O)>,
)
    ensures
        eval_spec(binary(OpCode::Cat, JsonValue::Str(a), JsonValue::Str(b)), frames, root, cfg, ops)
            == Ok::<JsonValue, EvalError>(JsonValue::Str(a + b)),
        eval_spec(binary(OpCode::In, JsonValue::Str(a), JsonValue::Str(b)), frames, root, cfg, ops)
            == Ok::<JsonValue, EvalError>(
            JsonValue::Bool(
                exists|i: int| 0 <= i && i + a.len() <= b.len() && #[trigger] b.subrange(i, i + a.len()) == a,
            ),
        ),
        a.len() <= i64::MAX ==> eval_spec(unary(OpCode::Length, JsonValue::Str(a)), frames, root, cfg, ops)
            == Ok::<JsonValue, EvalError>(JsonValue::Number(a.len() as int)),
{
    lemma_binary(OpCode::Cat, JsonValue::Str(a), JsonValue::Str(b), frames, root, cfg, ops);
    lemma_binary(OpCode::In, JsonValue::Str(a), JsonValue::Str(b), frames, root, cfg, ops);
    lemma_unary(OpCode::Length, JsonValue::Str(a), frames, root, cfg, ops);
    let vs = seq![JsonValue::Str(a), JsonValue::Str(b)];
    assert(concat_spec(vs, 2) == Seq::<char>::empty());
    assert(concat_spec(vs, 1) =~= b);
    assert(concat_spec(vs, 0) =~= a + b);
    let found = exists|i: int| 0 <= i && i + a.len() <= b.len() && #[trigger] b.subrange(i, i + a.len()) == a;
    if found {
        let i = choose|i: int| 0 <= i && i + a.len() <= b.len() && #[trigger] b.subrange(i, i + a.len()) == a;
        assert(occurs_at(b, a, i));
    }
    if has_text(b, a) {
        let i = choose|i: int| #[trigger] occurs_at(b, a, i);
        assert(b.subrange(i, i + a.len()) == a);
    }
}

/// `substr` of a string: from a start in the text, the rest of it, or
/// `len` characters when they are there; a negative start counts from the
/// end; a negative `len` leaves that many characters off the end.
pub proof fn law_substr<O: Operator>(
    t: Seq<char>,
    start: int,
    len: int,
    frames: Seq<FrameView>,
    root: JsonValue,
    cfg: EvaluationConfig,
    ops: Seq<(Seq<char>, O)>,
)
    requires
        fits(start),
        fits(len),
    ensures
        0 <= start <= t.len() ==> eval_spec(
            binary(OpCode::Substr, JsonValue::Str(t), JsonValue::Number(start)),
            frames,
            root,
            cfg,
            ops,
        ) == Ok::<JsonValue, EvalError>(JsonValue::Str(t.subrange(start, t.len() as int))),
        0 < -start <= t.len() ==> eval_spec(
            binary(OpCode::Substr, JsonValue::Str(t), JsonValue::Number(start)),
            frames,
            root,
            cfg,
            ops,
        ) == Ok::<JsonValue, EvalError>(JsonValue::Str(t.subrange(t.len() + start, t.len() as int))),
        0 <= start && 0 <= len && start + len <= t.len() ==> eval_spec(
            ternary(OpCode::Substr, JsonValue::Str(t), JsonValue::Number(start), JsonValue::Number(len)),
            frames,
            root,
            cfg,
            ops,
        ) == Ok::<JsonValue, EvalError>(JsonValue::Str(t.subrange(start, start + len))),
        0 <= start && len < 0 && start <= t.len() + len ==> eval_spec(
            ternary(OpCode::Substr, JsonValue::Str(t), JsonValue::Number(start), JsonValue::Number(len)),
            frames,
            root,
            cfg,
            ops,
        ) == Ok::<JsonValue, EvalError>(JsonValue::Str(t.subrange(start, t.len() + len))),
{
    assert((start as i64) as int == start);
    assert((len as i64) as int == len);
    lemma_binary(OpCode::Substr, JsonValue::Str(t), JsonValue::Number(start), frames, root, cfg, ops);
    lemma_ternary(
        OpCode::Substr,
        JsonValue::Str(t),
        JsonValue::Number(start),
        JsonValue::Number(len),
        frames,
        root,
        cfg,
        ops,
    );
}

/// The elements of `xs` whose flag in `keep` is set, in order.
pub open spec fn selected(xs: Seq<JsonValue>, keep: Seq<bool>) -> Seq<JsonValue>
    decreases xs.len(),
{
    if xs.len() == 0 || keep.len() == 0 {
        Seq::empty()
    } else if keep[0] {
        seq![xs[0]] + selected(xs.skip(1), keep.skip(1))
    } else {
        selected(xs.skip(1), keep.skip(1))
    }
}

/// `map` from element `i` on gives the test values from `i` on.
proof fn lemma_map_items<O: Operator>(
    body: NodeView,
    xs: Seq<JsonValue>,
    tests: Seq<JsonValue>,
    i: nat,
    frames: Seq<FrameView>,
    root: JsonValue,
    cfg: EvaluationConfig,
    ops: Seq<(Seq<char>, O)>,
)
    requires
        tests.len() == xs.len(),
        i <= xs.len(),
        forall|j: int|
            0 <= j < xs.len() ==> eval_spec(body, frames.push(FrameView::Indexed(xs[j], j as usize)), root, cfg, ops)
                == Ok::<JsonValue, EvalError>(#[trigger] tests[j]),
    ensures
        map_items(body, xs, i, frames, root, cfg, ops) == Ok::<Seq<JsonValue>, EvalError>(tests.skip(i as int)),
    decreases xs.len() - i,
{
    if i < xs.len() {
        lemma_map_items(body, xs, tests, i + 1, frames, root, cfg, ops);
        assert(eval_spec(body, frames.push(FrameView::Indexed(xs[i as int], i as usize)), root, cfg, ops)
            == Ok::<JsonValue, EvalError>(tests[i as int]));
        assert(seq![tests[i as int]] + tests.skip(i + 1 as int) =~= tests.skip(i as int));
    } else {
        assert(tests.skip(i as int) =~= Seq::<JsonValue>::empty());
    }
}

/// `filter` from element `i` on keeps the elements from `i` on whose test
/// value is truthy.
proof fn lemma_filter_items<O: Operator>(
    body: NodeView,
    xs: Seq<JsonValue>,
    tests: Seq<JsonValue>,
    i: nat,
    frames: Seq<FrameView>,
    root: JsonValue,
    cfg: EvaluationConfig,
    ops: Seq<(Seq<char>, O)>,
)
    requires
        tests.len() == xs.len(),
        i <= xs.len(),
        forall|j: int|
            0 <= j < xs.len() ==> eval_spec(body, frames.push(FrameView::Indexed(xs[j], j as usize)), root, cfg, ops)
                == Ok::<JsonValue, EvalError>(#[trigger] tests[j]),
    ensures
        filter_items(body, xs, i, frames, root, cfg, ops) == Ok::<Seq<JsonValue>, EvalError>(
            selected(xs.skip(i as int), tests.skip(i as int).map_values(|t: JsonValue| truthy_spec(t, cfg.truthy_evaluator))),
        ),
    decreases xs.len() - i,
{
    let keep = tests.skip(i as int).map_values(|t: JsonValue| truthy_spec(t, cfg.truthy_evaluator));
    if i < xs.len() {
        lemma_filter_items(body, xs, tests, i + 1, frames, root, cfg, ops);
        assert(eval_spec(body, frames.push(FrameView::Indexed(xs[i as int], i as usize)), root, cfg, ops)
            == Ok::<JsonValue, EvalError>(tests[i as int]));
        assert(xs.skip(i as int).skip(1) =~= xs.skip(i + 1 as int));
        assert(keep.skip(1) =~= tests.skip(i + 1 as int).map_values(|t: JsonValue| truthy_spec(t, cfg.truthy_evaluator)));
        assert(keep[0] == truthy_spec(tests[i as int], cfg.truthy_evaluator));
        assert(xs.skip(i as int)[0] == xs[i as int]);
    } else {
        assert(xs.skip(i as int).len() == 0);
    }
}

/// `reduce` from element `i` on ends with the last accumulator.
proof fn lemma_reduce_items<O: Operator>(
    body: NodeView,
    xs: Seq<JsonValue>,
    accs: Seq<JsonValue>,
    i: nat,
    frames: Seq<FrameView>,
    root: JsonValue,
    cfg: EvaluationConfig,
    ops: Seq<(Seq<char>, O)>,
)
    requires
        accs.len() == xs.len() + 1,
        i <= xs.len(),
        forall|j: int|
            0 <= j < xs.len() ==> eval_spec(body, frames.push(FrameView::Reduce(xs[j], #[trigger] accs[j])), root, cfg, ops)
                == Ok::<JsonValue, EvalError>(accs[j + 1]),
    ensures
        reduce_items(body, xs, i, accs[i as int], frames, root, cfg, ops) == Ok::<JsonValue, EvalError>(
            accs[xs.len() as int],
        ),
    decreases xs.len() - i,
{
    if i < xs.len() {
        lemma_reduce_items(body, xs, accs, i + 1, frames, root, cfg, ops);
        assert(eval_spec(body, frames.push(FrameView::Reduce(xs[i as int], accs[i as int])), root, cfg, ops)
            == Ok::<JsonValue, EvalError>(accs[i + 1 as int]));
    }
}

/// `map`, `filter` and `reduce` over an array whose every element's step
/// evaluates without error: `map` gives the values of its expression, one
/// per element and in order; `filter` keeps, in order, exactly the elements
/// whose test value is truthy; `reduce` threads the accumulator from its
/// initial value through every element and gives the last one.
pub proof fn law_map_filter_reduce<O: Operator>(
    xs: Seq<JsonValue>,
    body: NodeView,
    tests: Seq<JsonValue>,
    init: JsonValue,
    accs: Seq<JsonValue>,
    frames: Seq<FrameView>,
    root: JsonValue,
    cfg: EvaluationConfig,
    ops: Seq<(Seq<char>, O)>,
)
    requires
        tests.len() == xs.len(),
        forall|j: int|
            0 <= j < xs.len() ==> eval_spec(body, frames.push(FrameView::Indexed(xs[j], j as usize)), root, cfg, ops)
                == Ok::<JsonValue, EvalError>(#[trigger] tests[j]),
    ensures
        eval_spec(
            NodeView::Builtin(OpCode::MapArray, seq![NodeView::Value(JsonValue::Array(xs)), body]),
            frames,
            root,
            cfg,
            ops,
        ) == Ok::<JsonValue, EvalError>(JsonValue::Array(tests)),
        eval_spec(
            NodeView::Builtin(OpCode::Filter, seq![NodeView::Value(JsonValue::Array(xs)), body]),
            frames,
            root,
            cfg,
            ops,
        ) == Ok::<JsonValue, EvalError>(
            JsonValue::Array(selected(xs, tests.map_values(|t: JsonValue| truthy_spec(t, cfg.truthy_evaluator)))),
        ),
        accs.len() == xs.len() + 1 && accs[0] == init && (forall|j: int|
            0 <= j < xs.len() ==> eval_spec(body, frames.push(FrameView::Reduce(xs[j], #[trigger] accs[j])), root, cfg, ops)
                == Ok::<JsonValue, EvalError>(accs[j + 1])) ==> eval_spec(
            NodeView::Builtin(
                OpCode::Reduce,
                seq![NodeView::Value(JsonValue::Array(xs)), body, NodeView::Value(init)],
            ),
            frames,
            root,
            cfg,
            ops,
        ) == Ok::<JsonValue, EvalError>(accs[xs.len() as int]),
{
    let args = seq![NodeView::Value(JsonValue::Array(xs)), body];
    assert(eval_spec(args[0], frames, root, cfg, ops) == Ok::<JsonValue, EvalError>(JsonValue::Array(xs)));
    lemma_map_items(body, xs, tests, 0, frames, root, cfg, ops);
    assert(tests.skip(0) =~= tests);
    assert(xs.skip(0) =~= xs);
    lemma_filter_items(body, xs, tests, 0, frames, root, cfg, ops);
    assert(eval_iter(OpCode::MapArray, args, frames, root, cfg, ops) == Ok::<JsonValue, EvalError>(
        JsonValue::Array(tests),
    ));
    assert(eval_iter(OpCode::Filter, args, frames, root, cfg, ops) == Ok::<JsonValue, EvalError>(
        JsonValue::Array(selected(xs, tests.map_values(|t: JsonValue| truthy_spec(t, cfg.truthy_evaluator)))),
    ));
    if accs.len() == xs.len() + 1 && accs[0] == init && (forall|j: int|
        0 <= j < xs.len() ==> eval_spec(body, frames.push(FrameView::Reduce(xs[j], #[trigger] accs[j])), root, cfg, ops)
            == Ok::<JsonValue, EvalError>(accs[j + 1])) {
        let rargs = seq![NodeView::Value(JsonValue::Array(xs)), body, NodeView::Value(init)];
        assert(eval_spec(rargs[0], frames, root, cfg, ops) == Ok::<JsonValue, EvalError>(JsonValue::Array(xs)));
        assert(eval_spec(rargs[2], frames, root, cfg, ops) == Ok::<JsonValue, EvalError>(init));
        lemma_reduce_items(body, xs, accs, 0, frames, root, cfg, ops);
        assert(eval_iter(OpCode::Reduce, rargs, frames, root, cfg, ops) == Ok::<JsonValue, EvalError>(
            accs[xs.len() as int],
        ));
    }
}

/// The array operators: `merge` joins two arrays and appends a value that
/// is not an array, `in` tells whether a value is an element of an array,
/// and `length` counts the elements.
pub proof fn law_array_operators<O: Operator>(
    xs: Seq<JsonValue>,
    ys: Seq<JsonValue>,
    v: JsonValue,
    frames: Seq<FrameView>,
    root: JsonValue,
    cfg: EvaluationConfig,
    ops: Seq<(Seq<char>, O)>,
)
    ensures
        eval_spec(binary(OpCode::Merge, JsonValue::Array(xs), JsonValue::Array(ys)), frames, root, cfg, ops)
            == Ok::<JsonValue, EvalError>(JsonValue::Array(xs + ys)),
        !(v is Array) ==> eval_spec(binary(OpCode::Merge, JsonValue::Array(xs), v), frames, root, cfg, ops)
            == Ok::<JsonValue, EvalError>(JsonValue::Array(xs.push(v))),
        eval_spec(binary(OpCode::In, v, JsonValue::Array(xs)), frames, root, cfg, ops) == Ok::<JsonValue, EvalError>(
            JsonValue::Bool(exists|i: int| 0 <= i < xs.len() && #[trigger] xs[i] == v),
        ),
        xs.len() <= i64::MAX ==> eval_spec(unary(OpCode::Length, JsonValue::Array(xs)), frames, root, cfg, ops)
            == Ok::<JsonValue, EvalError>(JsonValue::Number(xs.len() as int)),
{
    lemma_binary(OpCode::Merge, JsonValue::Array(xs), JsonValue::Array(ys), frames, root, cfg, ops);
    lemma_binary(OpCode::Merge, JsonValue::Array(xs), v, frames, root, cfg, ops);
    lemma_binary(OpCode::In, v, JsonValue::Array(xs), frames, root, cfg, ops);
    lemma_unary(OpCode::Length, JsonValue::Array(xs), frames, root, cfg, ops);
    let m1 = seq![JsonValue::Array(xs), JsonValue::Array(ys)];
    assert(merge_spec(m1, 2) == Seq::<JsonValue>::empty());
    assert(merge_spec(m1, 1) =~= ys);
    assert(merge_spec(m1, 0) =~= xs + ys);
    let m2 = seq![JsonValue::Array(xs), v];
    assert(merge_spec(m2, 2) == Seq::<JsonValue>::empty());
    if !(v is Array) {
        assert(merge_spec(m2, 1) =~= seq![v]);
        assert(merge_spec(m2, 0) =~= xs.push(v));
    }
    if xs.contains(v) {
        let i = choose|i: int| 0 <= i < xs.len() && xs[i] == v;
        assert(xs[i] == v);
    }
}

/// Equality and ordering beyond two integers: `===` holds exactly when the
/// values are equal and `!==` exactly when they differ, for any two values;
/// `==` between a number and a boolean holds exactly when the number is 1
/// for `true` or 0 for `false`; `<` and `<=` with three integers hold
/// exactly when the middle one lies between the others; and an ordering
/// against an array or an object is false.
#[verifier::rlimit(30)]
pub proof fn law_equality_and_order<O: Operator>(
    a: JsonValue,
    b: JsonValue,
    x: int,
    y: int,
    z: int,
    p: bool,
    frames: Seq<FrameView>,
    root: JsonValue,
    cfg: EvaluationConfig,
    ops: Seq<(Seq<char>, O)>,
)
    requires
        fits(x),
        fits(y),
        fits(z),
    ensures
        eval_spec(binary(OpCode::StrictEquals, a, b), frames, root, cfg, ops) == Ok::<JsonValue, EvalError>(
            JsonValue::Bool(a == b),
        ),
        eval_spec(binary(OpCode::StrictNotEquals, a, b), frames, root, cfg, ops) == Ok::<JsonValue, EvalError>(
            JsonValue::Bool(a != b),
        ),
        eval_spec(binary(OpCode::Equals, JsonValue::Number(x), JsonValue::Bool(p)), frames, root, cfg, ops)
            == Ok::<JsonValue, EvalError>(JsonValue::Bool(if p { x == 1 } else { x == 0 })),
        eval_spec(
            ternary(OpCode::LessThan, JsonValue::Number(x), JsonValue::Number(y), JsonValue::Number(z)),
            frames,
            root,
            cfg,
            ops,
        ) == Ok::<JsonValue, EvalError>(JsonValue::Bool(x < y && y < z)),
        eval_spec(
            ternary(OpCode::LessThanEqual, JsonValue::Number(x), JsonValue::Number(y), JsonValue::Number(z)),
            frames,
            root,
            cfg,
            ops,
        ) == Ok::<JsonValue, EvalError>(JsonValue::Bool(x <= y && y <= z)),
        (a is Array || a is Object) ==> {
            &&& eval_spec(binary(OpCode::LessThan, a, b), frames, root, cfg, ops) == Ok::<JsonValue, EvalError>(
                JsonValue::Bool(false),
            )
            &&& eval_spec(binary(OpCode::LessThanEqual, a, b), frames, root, cfg, ops) == Ok::<JsonValue, EvalError>(
                JsonValue::Bool(false),
            )
            &&& eval_spec(binary(OpCode::GreaterThan, a, b), frames, root, cfg, ops) == Ok::<JsonValue, EvalError>(
                JsonValue::Bool(false),
            )
            &&& eval_spec(binary(OpCode::GreaterThanEqual, a, b), frames, root, cfg, ops)
                == Ok::<JsonValue, EvalError>(JsonValue::Bool(false))
        },
{
    assert((x as i64) as int == x);
    assert((y as i64) as int == y);
    assert((z as i64) as int == z);
    lemma_binary(OpCode::StrictEquals, a, b, frames, root, cfg, ops);
    lemma_binary(OpCode::StrictNotEquals, a, b, frames, root, cfg, ops);
    lemma_binary(OpCode::Equals, JsonValue::Number(x), JsonValue::Bool(p), frames, root, cfg, ops);
    lemma_ternary(OpCode::LessThan, JsonValue::Number(x), JsonValue::Number(y), JsonValue::Number(z), frames, root, cfg, ops);
    lemma_ternary(
        OpCode::LessThanEqual,
        JsonValue::Number(x),
        JsonValue::Number(y),
        JsonValue::Number(z),
        frames,
        root,
        cfg,
        ops,
    );
    lemma_binary(OpCode::LessThan, a, b, frames, root, cfg, ops);
    lemma_binary(OpCode::LessThanEqual, a, b, frames, root, cfg, ops);
    lemma_binary(OpCode::GreaterThan, a, b, frames, root, cfg, ops);
    lemma_binary(OpCode::GreaterThanEqual, a, b, frames, root, cfg, ops);
}

/// A plain variable access: `segs` walked from the data `level` levels up,
/// with `default` when it misses.
pub open spec fn var_node(level: u32, segs: Seq<SegmentView>, default: Option<Box<NodeView>>) -> NodeView {
    NodeView::Var {
        scope_level: level,
        segments: segs,
        reduce_hint: ReduceHint::NoHint,
        metadata_hint: MetadataHint::NoHint,
        default_value: default,
    }
}

/// The value under the first entry with key `k` is what a field lookup finds.
proof fn lemma_lookup_first(ps: Seq<(Seq<char>, JsonValue)>, k: Seq<char>, i: int)
    requires
        0 <= i < ps.len(),
        ps[i].0 == k,
        forall|j: int| 0 <= j < i ==> (#[trigger] ps[j]).0 != k,
    ensures
        lookup_field(ps, k) == Some(ps[i].1),
    decreases ps.len(),
{
    if i < ps.len() - 1 {
        lemma_lookup_first(ps.drop_last(), k, i);
    } else {
        lemma_lookup_none(ps.drop_last(), k);
    }
}

/// A field lookup misses when no entry has the key.
proof fn lemma_lookup_none(ps: Seq<(Seq<char>, JsonValue)>, k: Seq<char>)
    requires
        forall|j: int| 0 <= j < ps.len() ==> (#[trigger] ps[j]).0 != k,
    ensures
        lookup_field(ps, k) is None,
    decreases ps.len(),
{
    if ps.len() > 0 {
        lemma_lookup_none(ps.drop_last(), k);
    }
}

/// Variable access: a key reads the value of the first entry with that key
/// in an object, and `null` (or the default's value) when there is none; an
/// index reads the element of an array; the empty path inside an
/// iteration reads the current element, one level up reads the data
/// outside it, and the index metadata reads the element's position.
pub proof fn law_variable_access<O: Operator>(
    ps: Seq<(Seq<char>, JsonValue)>,
    k: Seq<char>,
    i: int,
    xs: Seq<JsonValue>,
    n: usize,
    x: JsonValue,
    pos: usize,
    d: JsonValue,
    frames: Seq<FrameView>,
    root: JsonValue,
    cfg: EvaluationConfig,
    ops: Seq<(Seq<char>, O)>,
)
    ensures
        (0 <= i < ps.len() && ps[i].0 == k && forall|j: int| 0 <= j < i ==> (#[trigger] ps[j]).0 != k) ==> eval_spec(
            var_node(0, seq![SegmentView::Field(k)], None),
            Seq::empty(),
            JsonValue::Object(ps),
            cfg,
            ops,
        ) == Ok::<JsonValue, EvalError>(ps[i].1),
        (forall|j: int| 0 <= j < ps.len() ==> (#[trigger] ps[j]).0 != k) ==> {
            &&& eval_spec(var_node(0, seq![SegmentView::Field(k)], None), Seq::empty(), JsonValue::Object(ps), cfg, ops)
                == Ok::<JsonValue, EvalError>(JsonValue::Null)
            &&& eval_spec(
                var_node(0, seq![SegmentView::Field(k)], Some(Box::new(NodeView::Value(d)))),
                Seq::empty(),
                JsonValue::Object(ps),
                cfg,
                ops,
            ) == Ok::<JsonValue, EvalError>(d)
        },
        n < xs.len() ==> eval_spec(var_node(0, seq![SegmentView::Index(n)], None), Seq::empty(), JsonValue::Array(xs), cfg, ops)
            == Ok::<JsonValue, EvalError>(xs[n as int]),
        eval_spec(var_node(0, Seq::empty(), None), frames.push(FrameView::Indexed(x, pos)), root, cfg, ops)
            == Ok::<JsonValue, EvalError>(x),
        eval_spec(var_node(1, Seq::empty(), None), seq![FrameView::Indexed(x, pos)], root, cfg, ops)
            == Ok::<JsonValue, EvalError>(root),
        pos <= i64::MAX ==> eval_spec(
            NodeView::Var {
                scope_level: 0,
                segments: Seq::empty(),
                reduce_hint: ReduceHint::NoHint,
                metadata_hint: MetadataHint::Index,
                default_value: None,
            },
            frames.push(FrameView::Indexed(x, pos)),
            root,
            cfg,
            ops,
        ) == Ok::<JsonValue, EvalError>(JsonValue::Number(pos as int)),
{
    let f = seq![SegmentView::Field(k)];
    assert(f.skip(1) =~= Seq::<SegmentView>::empty());
    let ix = seq![SegmentView::Index(n)];
    assert(ix.skip(1) =~= Seq::<SegmentView>::empty());
    if 0 <= i < ps.len() && ps[i].0 == k && forall|j: int| 0 <= j < i ==> (#[trigger] ps[j]).0 != k {
        lemma_lookup_first(ps, k, i);
        assert(traverse_spec(ps[i].1, f.skip(1)) == Some(ps[i].1));
        assert(traverse_spec(JsonValue::Object(ps), f) == Some(ps[i].1));
    }
    if forall|j: int| 0 <= j < ps.len() ==> (#[trigger] ps[j]).0 != k {
        lemma_lookup_none(ps, k);
        assert(traverse_spec(JsonValue::Object(ps), f) is None);
        assert(eval_spec(*Box::new(NodeView::Value(d)), Seq::empty(), JsonValue::Object(ps), cfg, ops)
            == Ok::<JsonValue, EvalError>(d));
    }
    if n < xs.len() {
        assert(traverse_spec(xs[n as int], ix.skip(1)) == Some(xs[n as int]));
        assert(traverse_spec(JsonValue::Array(xs), ix) == Some(xs[n as int]));
    }
    let top = frames.push(FrameView::Indexed(x, pos));
    assert(frame_at(top, 0) == Some(FrameView::Indexed(x, pos)));
}

/// The numeric operands of one value that coerces to `x`.
proof fn lemma_one_operand(a: JsonValue, x: i64, cfg: EvaluationConfig)
    requires
        coerce_integer_spec(a, cfg.numeric_coercion) == Some(x),
    ensures
        operands_spec(seq![a], 0, cfg) == Ok::<Option<Seq<i64>>, EvalError>(Some(seq![x])),
{
    let vs = seq![a];
    assert(operands_spec(vs, 1, cfg) == Ok::<Option<Seq<i64>>, EvalError>(Some(Seq::empty())));
    assert(seq![x] + Seq::<i64>::empty() =~= seq![x]);
}

/// One-operand arithmetic on a value that coerces to `x`: `abs` gives its
/// magnitude, `-` its negation (both fail when that does not fit in 64
/// bits), and `ceil` and `floor` give `x` itself.
pub proof fn law_one_operand_arithmetic<O: Operator>(
    a: JsonValue,
    x: i64,
    frames: Seq<FrameView>,
    root: JsonValue,
    cfg: EvaluationConfig,
    ops: Seq<(Seq<char>, O)>,
)
    requires
        coerce_integer_spec(a, cfg.numeric_coercion) == Some(x),
    ensures
        eval_spec(unary(OpCode::Abs, a), frames, root, cfg, ops) == (if x != i64::MIN {
            Ok::<JsonValue, EvalError>(JsonValue::Number(if x < 0 { -x } else { x as int }))
        } else {
            Err(overflow())
        }),
        eval_spec(unary(OpCode::Subtract, a), frames, root, cfg, ops) == (if x != i64::MIN {
            Ok::<JsonValue, EvalError>(JsonValue::Number(-x))
        } else {
            Err(overflow())
        }),
        eval_spec(unary(OpCode::Ceil, a), frames, root, cfg, ops) == Ok::<JsonValue, EvalError>(JsonValue::Number(x as int)),
        eval_spec(unary(OpCode::Floor, a), frames, root, cfg, ops) == Ok::<JsonValue, EvalError>(JsonValue::Number(x as int)),
{
    lemma_one_operand(a, x, cfg);
    lemma_unary(OpCode::Abs, a, frames, root, cfg, ops);
    lemma_unary(OpCode::Subtract, a, frames, root, cfg, ops);
    lemma_unary(OpCode::Ceil, a, frames, root, cfg, ops);
    lemma_unary(OpCode::Floor, a, frames, root, cfg, ops);
}

/// `type` names the kind of its argument.
pub proof fn law_type_names<O: Operator>(
    v: JsonValue,
    frames: Seq<FrameView>,
    root: JsonValue,
    cfg: EvaluationConfig,
    ops: Seq<(Seq<char>, O)>,
)
    ensures
        eval_spec(unary(OpCode::Type, v), frames, root, cfg, ops) == Ok::<JsonValue, EvalError>(
            JsonValue::Str(
                match v {
                    JsonValue::Null => "null"@,
                    JsonValue::Bool(_) => "boolean"@,
                    JsonValue::Number(_) => "number"@,
                    JsonValue::Str(_) => "string"@,
                    JsonValue::Array(_) => "array"@,
                    JsonValue::Object(_) => "object"@,
                },
            ),
        ),
{
    lemma_unary(OpCode::Type, v, frames, root, cfg, ops);
}

/// The case picked from position `i` on is the first pair whose head is `d`.
proof fn lemma_switch_pick(d: JsonValue, cases: Seq<JsonValue>, k: int, i: nat)
    requires
        i <= k < cases.len(),
        cases[k] matches JsonValue::Array(p) && p.len() >= 2 && p[0] == d,
        forall|j: int|
            0 <= j < k ==> !(#[trigger] cases[j] matches JsonValue::Array(p) && p.len() >= 2 && p[0] == d),
    ensures
        switch_pick(d, cases, i) == Some(cases[k]->Array_0[1]),
    decreases k - i,
{
    if i < k {
        lemma_switch_pick(d, cases, k, i + 1);
        assert(!(cases[i as int] matches JsonValue::Array(p) && p.len() >= 2 && p[0] == d));
    }
}

/// No case is picked from position `i` on when no pair has `d` as its head.
proof fn lemma_switch_none(d: JsonValue, cases: Seq<JsonValue>, i: nat)
    requires
        i <= cases.len(),
        forall|j: int|
            0 <= j < cases.len() ==> !(#[trigger] cases[j] matches JsonValue::Array(p) && p.len() >= 2 && p[0] == d),
    ensures
        switch_pick(d, cases, i) is None,
    decreases cases.len() - i,
{
    if i < cases.len() {
        lemma_switch_none(d, cases, i + 1);
        assert(!(cases[i as int] matches JsonValue::Array(p) && p.len() >= 2 && p[0] == d));
    }
}

/// `switch` on a value `d` with a list of `[case, result]` pairs gives the
/// result of the first pair whose case is `d`; when none is, the default,
/// and `null` without one.
pub proof fn law_switch<O: Operator>(
    d: JsonValue,
    cases: Seq<JsonValue>,
    k: int,
    dflt: JsonValue,
    frames: Seq<FrameView>,
    root: JsonValue,
    cfg: EvaluationConfig,
    ops: Seq<(Seq<char>, O)>,
)
    ensures
        (0 <= k < cases.len() && (cases[k] matches JsonValue::Array(p) && p.len() >= 2 && p[0] == d) && forall|j: int|
            0 <= j < k ==> !(#[trigger] cases[j] matches JsonValue::Array(p) && p.len() >= 2 && p[0] == d))
            ==> eval_spec(binary(OpCode::Switch, d, JsonValue::Array(cases)), frames, root, cfg, ops)
            == Ok::<JsonValue, EvalError>(cases[k]->Array_0[1]),
        (forall|j: int|
            0 <= j < cases.len() ==> !(#[trigger] cases[j] matches JsonValue::Array(p) && p.len() >= 2 && p[0] == d))
            ==> {
            &&& eval_spec(binary(OpCode::Switch, d, JsonValue::Array(cases)), frames, root, cfg, ops)
                == Ok::<JsonValue, EvalError>(JsonValue::Null)
            &&& eval_spec(ternary(OpCode::Switch, d, JsonValue::Array(cases), dflt), frames, root, cfg, ops)
                == Ok::<JsonValue, EvalError>(dflt)
        },
{
    let two = seq![NodeView::Value(d), NodeView::Value(JsonValue::Array(cases))];
    let three = seq![NodeView::Value(d), NodeView::Value(JsonValue::Array(cases)), NodeView::Value(dflt)];
    assert(eval_spec(two[0], frames, root, cfg, ops) == Ok::<JsonValue, EvalError>(d));
    assert(eval_spec(two[1], frames, root, cfg, ops) == Ok::<JsonValue, EvalError>(JsonValue::Array(cases)));
    assert(eval_spec(three[0], frames, root, cfg, ops) == Ok::<JsonValue, EvalError>(d));
    assert(eval_spec(three[1], frames, root, cfg, ops) == Ok::<JsonValue, EvalError>(JsonValue::Array(cases)));
    assert(eval_spec(three[2], frames, root, cfg, ops) == Ok::<JsonValue, EvalError>(dflt));
    if 0 <= k < cases.len() && (cases[k] matches JsonValue::Array(p) && p.len() >= 2 && p[0] == d) && forall|j: int|
        0 <= j < k ==> !(#[trigger] cases[j] matches JsonValue::Array(p) && p.len() >= 2 && p[0] == d) {
        lemma_switch_pick(d, cases, k, 0);
        assert(eval_switch(two, frames, root, cfg, ops) == Ok::<JsonValue, EvalError>(cases[k]->Array_0[1]));
    }
    if forall|j: int|
        0 <= j < cases.len() ==> !(#[trigger] cases[j] matches JsonValue::Array(p) && p.len() >= 2 && p[0] == d) {
        lemma_switch_none(d, cases, 0);
        assert(eval_switch(two, frames, root, cfg, ops) == Ok::<JsonValue, EvalError>(JsonValue::Null));
        assert(eval_switch(three, frames, root, cfg, ops) == Ok::<JsonValue, EvalError>(dflt));
    }
}

/// `slice` of an array between two positions within it gives the elements
/// between them; a negative start counts from the end.
pub proof fn law_slice<O: Operator>(
    xs: Seq<JsonValue>,
    b: int,
    e: int,
    frames: Seq<FrameView>,
    root: JsonValue,
    cfg: EvaluationConfig,
    ops: Seq<(Seq<char>, O)>,
)
    requires
        fits(b),
        fits(e),
    ensures
        0 <= b <= e <= xs.len() ==> eval_spec(
            ternary(OpCode::Slice, JsonValue::Array(xs), JsonValue::Number(b), JsonValue::Number(e)),
            frames,
            root,
            cfg,
            ops,
        ) == Ok::<JsonValue, EvalError>(JsonValue::Array(xs.subrange(b, e))),
        0 < -b <= xs.len() ==> eval_spec(
            binary(OpCode::Slice, JsonValue::Array(xs), JsonValue::Number(b)),
            frames,
            root,
            cfg,
            ops,
        ) == Ok::<JsonValue, EvalError>(JsonValue::Array(xs.subrange(xs.len() + b, xs.len() as int))),
{
    assert((b as i64) as int == b);
    assert((e as i64) as int == e);
    lemma_binary(OpCode::Slice, JsonValue::Array(xs), JsonValue::Number(b), frames, root, cfg, ops);
    lemma_ternary(OpCode::Slice, JsonValue::Array(xs), JsonValue::Number(b), JsonValue::Number(e), frames, root, cfg, ops);
}

/// The leading white space ends at the first character from `i` on that
/// is not white space.
proof fn lemma_lead_end(s: Seq<char>, i: nat)
    requires
        i <= s.len(),
    ensures
        i <= lead_end(s, i) <= s.len(),
        forall|j: int| i <= j < lead_end(s, i) ==> is_white(#[trigger] s[j]),
        lead_end(s, i) < s.len() ==> !is_white(s[lead_end(s, i) as int]),
    decreases s.len() - i,
{
    if i < s.len() && is_white(s[i as int]) {
        lemma_lead_end(s, i + 1);
    }
}

/// The trailing white space before `j` starts after the last character
/// before `j` that is not white space.
proof fn lemma_trail_start(s: Seq<char>, j: nat)
    requires
        j <= s.len(),
    ensures
        trail_start(s, j) <= j,
        forall|m: int| trail_start(s, j) <= m < j ==> is_white(#[trigger] s[m]),
        trail_start(s, j) > 0 ==> !is_white(s[trail_start(s, j) - 1]),
    decreases j,
{
    if j > 0 && is_white(s[j - 1]) {
        lemma_trail_start(s, (j - 1) as nat);
    }
}

/// `trim` gives the part of the text between its leading and trailing
/// white space: a piece `s[b..e]` with only white space outside it, that
/// neither starts nor ends with white space.
pub proof fn law_trim<O: Operator>(
    s: Seq<char>,
    frames: Seq<FrameView>,
    root: JsonValue,
    cfg: EvaluationConfig,
    ops: Seq<(Seq<char>, O)>,
)
    ensures
        eval_spec(unary(OpCode::Trim, JsonValue::Str(s)), frames, root, cfg, ops) matches Ok(JsonValue::Str(t))
            && exists|b: int, e: int|
            0 <= b <= e <= s.len() && t == #[trigger] s.subrange(b, e) && (forall|j: int|
                0 <= j < s.len() && (j < b || j >= e) ==> is_white(#[trigger] s[j])) && (t.len() > 0 ==> !is_white(
                t[0],
            ) && !is_white(t[t.len() - 1])),
{
    lemma_unary(OpCode::Trim, JsonValue::Str(s), frames, root, cfg, ops);
    lemma_lead_end(s, 0);
    lemma_trail_start(s, s.len());
    let b = lead_end(s, 0) as int;
    let e = trail_start(s, s.len()) as int;
    let t = trim_spec(s);
    if e <= b {
        assert(t == s.subrange(0, 0));
        assert(forall|j: int| 0 <= j < s.len() && (j < 0 || j >= 0) ==> is_white(#[trigger] s[j]));
    } else {
        assert(t == s.subrange(b, e));
        assert(t[0] == s[b]);
        assert(t[t.len() - 1] == s[e - 1]);
    }
}

/// The pieces joined with `sep` between each two.
pub open spec fn joined(ps: Seq<Seq<char>>, sep: Seq<char>) -> Seq<char>
    decreases ps.len(),
{
    if ps.len() == 0 {
        Seq::empty()
    } else if ps.len() == 1 {
        ps[0]
    } else {
        ps[0] + sep + joined(ps.skip(1), sep)
    }
}

/// `sep` occurs nowhere in `p`.
pub open spec fn free_of(p: Seq<char>, sep: Seq<char>) -> bool {
    forall|m: int| 0 <= m && m + sep.len() <= p.len() ==> #[trigger] p.subrange(m, m + sep.len()) != sep
}

/// The occurrence search from `i`: the first occurrence at or after `i`,
/// or none at all.
proof fn lemma_first_occurrence(s: Seq<char>, sep: Seq<char>, i: nat)
    ensures
        match first_occ(s, sep, i) {
            Some(k) => i <= k && occurs_at(s, sep, k as int) && forall|m: int| i <= m < k ==> !#[trigger] occurs_at(s, sep, m),
            None => forall|m: int| i <= m ==> !#[trigger] occurs_at(s, sep, m),
        },
    decreases s.len() + 1 - i,
{
    if i <= s.len() && !occurs_at(s, sep, i as int) {
        lemma_first_occurrence(s, sep, i + 1);
    }
}

/// A piece `s[start..end]` in which no occurrence of `sep` in `s` starts
/// is free of `sep`.
proof fn lemma_piece_free(s: Seq<char>, sep: Seq<char>, start: int, end: int)
    requires
        0 <= start <= end <= s.len(),
        sep.len() > 0,
        forall|m: int| start <= m < end ==> !#[trigger] occurs_at(s, sep, m),
    ensures
        free_of(s.subrange(start, end), sep),
{
    let p = s.subrange(start, end);
    assert forall|m: int| 0 <= m && m + sep.len() <= p.len() implies #[trigger] p.subrange(m, m + sep.len()) != sep by {
        assert(p.subrange(m, m + sep.len()) =~= s.subrange(start + m, start + m + sep.len()));
        assert(!occurs_at(s, sep, start + m));
    }
}

/// The pieces of `s` from `start` on join back to the rest of `s`, and none
/// holds `sep`.
proof fn lemma_split_from(s: Seq<char>, sep: Seq<char>, start: nat)
    requires
        sep.len() > 0,
        start <= s.len(),
    ensures
        split_from(s, sep, start).len() >= 1,
        joined(split_from(s, sep, start), sep) == s.subrange(start as int, s.len() as int),
        forall|i: int| 0 <= i < split_from(s, sep, start).len() ==> free_of(#[trigger] split_from(s, sep, start)[i], sep),
    decreases s.len() + 1 - start,
{
    lemma_first_occurrence(s, sep, start);
    let ps = split_from(s, sep, start);
    match first_occ(s, sep, start) {
        Some(k) => {
            lemma_split_from(s, sep, k + sep.len());
            let rest = split_from(s, sep, k + sep.len());
            let p = s.subrange(start as int, k as int);
            assert(ps == seq![p] + rest);
            assert(ps.skip(1) =~= rest);
            assert(ps[0] == p);
            assert(s.subrange(k as int, (k + sep.len()) as int) == sep);
            assert(p + sep + s.subrange((k + sep.len()) as int, s.len() as int) =~= s.subrange(start as int, s.len() as int));
            lemma_piece_free(s, sep, start as int, k as int);
            assert forall|i: int| 0 <= i < ps.len() implies free_of(#[trigger] ps[i], sep) by {
                if i > 0 {
                    assert(ps[i] == rest[i - 1]);
                }
            }
        },
        None => {
            lemma_piece_free(s, sep, start as int, s.len() as int);
        },
    }
}

/// `split` by a non-empty separator cuts a string into pieces that join
/// back to it with the separator between each two, none of which holds the
/// separator; by the empty separator it gives an empty piece, each
/// character, and an empty piece.
pub proof fn law_split<O: Operator>(
    s: Seq<char>,
    sep: Seq<char>,
    frames: Seq<FrameView>,
    root: JsonValue,
    cfg: EvaluationConfig,
    ops: Seq<(Seq<char>, O)>,
)
    ensures
        sep.len() > 0 ==> (eval_spec(binary(OpCode::Split, JsonValue::Str(s), JsonValue::Str(sep)), frames, root, cfg, ops)
            matches Ok(JsonValue::Array(items)) && items.len() >= 1 && (forall|i: int|
            0 <= i < items.len() ==> (#[trigger] items[i] matches JsonValue::Str(p) && free_of(p, sep))) && joined(
            items.map_values(|v: JsonValue| v->Str_0),
            sep,
        ) == s),
        sep.len() == 0 ==> (eval_spec(binary(OpCode::Split, JsonValue::Str(s), JsonValue::Str(sep)), frames, root, cfg, ops)
            matches Ok(JsonValue::Array(items)) && items.len() == s.len() + 2 && items[0] == JsonValue::Str(
            Seq::empty(),
        ) && items[s.len() + 1int] == JsonValue::Str(Seq::empty()) && forall|i: int|
            0 <= i < s.len() ==> #[trigger] items[i + 1] == JsonValue::Str(seq![s[i]])),
{
    lemma_binary(OpCode::Split, JsonValue::Str(s), JsonValue::Str(sep), frames, root, cfg, ops);
    if sep.len() > 0 {
        lemma_split_from(s, sep, 0);
        let ps = split_from(s, sep, 0);
        let items = ps.map_values(|p: Seq<char>| JsonValue::Str(p));
        assert(items.map_values(|v: JsonValue| v->Str_0) =~= ps);
        assert(s.subrange(0, s.len() as int) =~= s);
        assert forall|i: int| 0 <= i < items.len() implies (#[trigger] items[i] matches JsonValue::Str(p) && free_of(p, sep)) by {
            assert(items[i] == JsonValue::Str(ps[i]));
        }
    } else {
        let ps = seq![Seq::<char>::empty()] + s.map_values(|c: char| seq![c]) + seq![Seq::<char>::empty()];
        let items = ps.map_values(|p: Seq<char>| JsonValue::Str(p));
        assert forall|i: int| 0 <= i < s.len() implies #[trigger] items[i + 1] == JsonValue::Str(seq![s[i]]) by {
            assert(ps[i + 1] == seq![s[i]]);
        }
        assert(ps[s.len() + 1int] == Seq::<char>::empty());
    }
}

/// `sort` of an array of numbers or of strings gives the same elements,
/// each as often, in ascending order (numbers by value); of anything that
/// is not an array it fails.
pub proof fn law_sort_operator<O: Operator>(
    xs: Seq<JsonValue>,
    v: JsonValue,
    frames: Seq<FrameView>,
    root: JsonValue,
    cfg: EvaluationConfig,
    ops: Seq<(Seq<char>, O)>,
)
    ensures
        sortable(xs) ==> (eval_spec(unary(OpCode::Sort, JsonValue::Array(xs)), frames, root, cfg, ops) matches Ok(
            JsonValue::Array(ys),
        ) && ys.to_multiset() == xs.to_multiset() && sorted_by_key(ys)),
        (forall|i: int| 0 <= i < xs.len() ==> #[trigger] xs[i] is Number) ==> (eval_spec(
            unary(OpCode::Sort, JsonValue::Array(xs)),
            frames,
            root,
            cfg,
            ops,
        ) matches Ok(JsonValue::Array(ys)) && forall|a: int, b: int|
            0 <= a < b < ys.len() ==> (#[trigger] ys[a] matches JsonValue::Number(p) && #[trigger] ys[b] matches JsonValue::Number(
                q,
            ) && p <= q)),
        !(v is Array) ==> eval_spec(unary(OpCode::Sort, v), frames, root, cfg, ops) is Err,
{
    lemma_unary(OpCode::Sort, JsonValue::Array(xs), frames, root, cfg, ops);
    lemma_unary(OpCode::Sort, v, frames, root, cfg, ops);
    if sortable(xs) {
        law_sort_is_sorted_permutation(xs);
    }
    if forall|i: int| 0 <= i < xs.len() ==> #[trigger] xs[i] is Number {
        assert(all_of_kind(xs, true));
        lemma_sort_kind(xs, true);
        let ys = sort_spec(xs);
        assert forall|a: int, b: int| 0 <= a < b < ys.len() implies (#[trigger] ys[a] matches JsonValue::Number(p)
            && #[trigger] ys[b] matches JsonValue::Number(q) && p <= q) by {
            assert(ys[a] is Number);
            assert(ys[b] is Number);
            assert(key_le(ys[a], ys[b]));
        }
    }
}

/// `missing` and `exists` on one key of an object: the key is reported
/// missing when no entry has it, and not when its first entry holds a
/// value other than `null` and `""`; `exists` tells whether an entry has it.
pub proof fn law_missing_and_exists<O: Operator>(
    ps: Seq<(Seq<char>, JsonValue)>,
    k: Seq<char>,
    i: int,
    cfg: EvaluationConfig,
    ops: Seq<(Seq<char>, O)>,
)
    ensures
        (forall|j: int| 0 <= j < ps.len() ==> (#[trigger] ps[j]).0 != k) ==> {
            &&& eval_spec(
                NodeView::Missing(seq![MissingArgView::Static(k, seq![SegmentView::Field(k)])]),
                Seq::empty(),
                JsonValue::Object(ps),
                cfg,
                ops,
            ) == Ok::<JsonValue, EvalError>(JsonValue::Array(seq![JsonValue::Str(k)]))
            &&& eval_spec(
                NodeView::Exists { scope_level: 0, segments: seq![SegmentView::Field(k)] },
                Seq::empty(),
                JsonValue::Object(ps),
                cfg,
                ops,
            ) == Ok::<JsonValue, EvalError>(JsonValue::Bool(false))
        },
        (0 <= i < ps.len() && ps[i].0 == k && (forall|j: int| 0 <= j < i ==> (#[trigger] ps[j]).0 != k)) ==> {
            &&& eval_spec(
                NodeView::Exists { scope_level: 0, segments: seq![SegmentView::Field(k)] },
                Seq::empty(),
                JsonValue::Object(ps),
                cfg,
                ops,
            ) == Ok::<JsonValue, EvalError>(JsonValue::Bool(true))
            &&& (ps[i].1 != JsonValue::Null && ps[i].1 != JsonValue::Str(Seq::empty())) ==> eval_spec(
                NodeView::Missing(seq![MissingArgView::Static(k, seq![SegmentView::Field(k)])]),
                Seq::empty(),
                JsonValue::Object(ps),
                cfg,
                ops,
            ) == Ok::<JsonValue, EvalError>(JsonValue::Array(Seq::empty()))
        },
{
    let f = seq![SegmentView::Field(k)];
    let margs = seq![MissingArgView::Static(k, f)];
    assert(f.skip(1) =~= Seq::<SegmentView>::empty());
    assert(missing_args(margs, 1, Seq::empty(), JsonValue::Object(ps), cfg, ops) == Ok::<Seq<JsonValue>, EvalError>(
        Seq::empty(),
    ));
    let none = Seq::<FrameView>::empty();
    assert(frame_at(none, 0) is None);
    assert(scope_data(none, JsonValue::Object(ps), 0) == JsonValue::Object(ps));
    if forall|j: int| 0 <= j < ps.len() ==> (#[trigger] ps[j]).0 != k {
        lemma_lookup_none(ps, k);
        assert(traverse_spec(JsonValue::Object(ps), f) is None);
        assert(absent(JsonValue::Object(ps), f));
        assert(seq![JsonValue::Str(k)] + Seq::<JsonValue>::empty() =~= seq![JsonValue::Str(k)]);
        assert(missing_args(margs, 0, none, JsonValue::Object(ps), cfg, ops) == Ok::<Seq<JsonValue>, EvalError>(
            seq![JsonValue::Str(k)],
        ));
    }
    if 0 <= i < ps.len() && ps[i].0 == k && (forall|j: int| 0 <= j < i ==> (#[trigger] ps[j]).0 != k) {
        lemma_lookup_first(ps, k, i);
        assert(traverse_spec(ps[i].1, f.skip(1)) == Some(ps[i].1));
        assert(traverse_spec(JsonValue::Object(ps), f) == Some(ps[i].1));
        assert(Seq::<JsonValue>::empty() + Seq::<JsonValue>::empty() =~= Seq::<JsonValue>::empty());
        if ps[i].1 != JsonValue::Null && ps[i].1 != JsonValue::Str(Seq::empty()) {
            if let JsonValue::Str(t) = ps[i].1 {
                if t.len() == 0 {
                    assert(t =~= Seq::<char>::empty());
                }
            }
            assert(!absent(JsonValue::Object(ps), f));
            assert(missing_args(margs, 0, none, JsonValue::Object(ps), cfg, ops) == Ok::<Seq<JsonValue>, EvalError>(
                Seq::empty(),
            ));
        }
    }
}

/// A registered operator gets the values of its arguments and gives what
/// the first operator under its name gives; a name under which nothing is
/// registered fails as an invalid operator.
pub proof fn law_custom_operators<O: Operator>(
    name: Seq<char>,
    a: JsonValue,
    k: int,
    frames: Seq<FrameView>,
    root: JsonValue,
    cfg: EvaluationConfig,
    ops: Seq<(Seq<char>, O)>,
)
    ensures
        (0 <= k < ops.len() && ops[k].0 == name && forall|j: int| 0 <= j < k ==> (#[trigger] ops[j]).0 != name)
            ==> eval_spec(NodeView::Custom(name, seq![NodeView::Value(a)]), frames, root, cfg, ops)
            == ops[k].1.evaluate_spec(seq![a]),
        (forall|j: int| 0 <= j < ops.len() ==> (#[trigger] ops[j]).0 != name) ==> eval_spec(
            NodeView::Custom(name, seq![NodeView::Value(a)]),
            frames,
            root,
            cfg,
            ops,
        ) == Err::<JsonValue, EvalError>(EvalError::InvalidOperator(name)),
{
    let ns = seq![NodeView::Value(a)];
    assert(eval_seq(ns, 1, frames, root, cfg, ops) == Ok::<Seq<JsonValue>, EvalError>(Seq::empty()));
    assert(eval_spec(ns[0], frames, root, cfg, ops) == Ok::<JsonValue, EvalError>(a));
    assert(seq![a] + Seq::<JsonValue>::empty() =~= seq![a]);
    assert(eval_seq(ns, 0, frames, root, cfg, ops) == Ok::<Seq<JsonValue>, EvalError>(seq![a]));
    if 0 <= k < ops.len() && ops[k].0 == name && forall|j: int| 0 <= j < k ==> (#[trigger] ops[j]).0 != name {
        lemma_find_first(ops, name, k, 0);
    }
    if forall|j: int| 0 <= j < ops.len() ==> (#[trigger] ops[j]).0 != name {
        lemma_find_none(ops, name, 0);
    }
}

/// The search from `i` finds the first registration under `name`.
proof fn lemma_find_first<O>(ops: Seq<(Seq<char>, O)>, name: Seq<char>, k: int, i: nat)
    requires
        i <= k < ops.len(),
        ops[k].0 == name,
        forall|j: int| 0 <= j < k ==> (#[trigger] ops[j]).0 != name,
    ensures
        find_op(ops, name, i) == Some(k),
    decreases k - i,
{
    if i < k {
        lemma_find_first(ops, name, k, i + 1);
    }
}

/// The search from `i` finds nothing when no registration has `name`.
proof fn lemma_find_none<O>(ops: Seq<(Seq<char>, O)>, name: Seq<char>, i: nat)
    requires
        forall|j: int| 0 <= j < ops.len() ==> (#[trigger] ops[j]).0 != name,
    ensures
        find_op(ops, name, i) is None,
    decreases ops.len() - i,
{
    if i < ops.len() {
        lemma_find_none(ops, name, i + 1);
    }
}

/// `throw` fails with its argument as the thrown value, a string `t` being
/// thrown as `{"type": t}`; `preserve` of one value gives that value.
pub proof fn law_throw_and_preserve<O: Operator>(
    v: JsonValue,
    frames: Seq<FrameView>,
    root: JsonValue,
    cfg: EvaluationConfig,
    ops: Seq<(Seq<char>, O)>,
)
    ensures
        eval_spec(unary(OpCode::Throw, v), frames, root, cfg, ops) == Err::<JsonValue, EvalError>(
            EvalError::Thrown(
                match v {
                    JsonValue::Str(t) => JsonValue::Object(seq![("type"@, JsonValue::Str(t))]),
                    _ => v,
                },
            ),
        ),
        eval_spec(unary(OpCode::Preserve, v), frames, root, cfg, ops) == Ok::<JsonValue, EvalError>(v),
{
    lemma_unary(OpCode::Throw, v, frames, root, cfg, ops);
    lemma_unary(OpCode::Preserve, v, frames, root, cfg, ops);
}

/// Loose equality and ordering read the decimal text of an integer as that
/// integer: `==` between the number `x` and the text of `y` holds exactly
/// when `x == y` (either way round), and `!=` exactly when they differ; `<`
/// and `<=` between the text of `x` and the number `y` hold exactly as
/// between `x` and `y`.
pub proof fn law_numeric_text<O: Operator>(
    x: i64,
    y: i64,
    frames: Seq<FrameView>,
    root: JsonValue,
    cfg: EvaluationConfig,
    ops: Seq<(Seq<char>, O)>,
)
    ensures
        eval_spec(binary(OpCode::Equals, JsonValue::Number(x as int), JsonValue::Str(int_text(y as int))), frames, root, cfg, ops)
            == Ok::<JsonValue, EvalError>(JsonValue::Bool(x == y)),
        eval_spec(binary(OpCode::Equals, JsonValue::Str(int_text(y as int)), JsonValue::Number(x as int)), frames, root, cfg, ops)
            == Ok::<JsonValue, EvalError>(JsonValue::Bool(x == y)),
        eval_spec(
            binary(OpCode::NotEquals, JsonValue::Number(x as int), JsonValue::Str(int_text(y as int))),
            frames,
            root,
            cfg,
            ops,
        ) == Ok::<JsonValue, EvalError>(JsonValue::Bool(x != y)),
        eval_spec(binary(OpCode::LessThan, JsonValue::Str(int_text(x as int)), JsonValue::Number(y as int)), frames, root, cfg, ops)
            == Ok::<JsonValue, EvalError>(JsonValue::Bool(x < y)),
        eval_spec(
            binary(OpCode::LessThanEqual, JsonValue::Str(int_text(x as int)), JsonValue::Number(y as int)),
            frames,
            root,
            cfg,
            ops,
        ) == Ok::<JsonValue, EvalError>(JsonValue::Bool(x <= y)),
{
    lemma_parse_format_i64(x);
    lemma_parse_format_i64(y);
    lemma_int_text_nonempty(x);
    lemma_binary(OpCode::Equals, JsonValue::Number(x as int), JsonValue::Str(int_text(y as int)), frames, root, cfg, ops);
    lemma_binary(OpCode::Equals, JsonValue::Str(int_text(y as int)), JsonValue::Number(x as int), frames, root, cfg, ops);
    lemma_binary(OpCode::NotEquals, JsonValue::Number(x as int), JsonValue::Str(int_text(y as int)), frames, root, cfg, ops);
    lemma_binary(OpCode::LessThan, JsonValue::Str(int_text(x as int)), JsonValue::Number(y as int), frames, root, cfg, ops);
    lemma_binary(
        OpCode::LessThanEqual,
        JsonValue::Str(int_text(x as int)),
        JsonValue::Number(y as int),
        frames,
        root,
        cfg,
        ops,
    );
}

/// The decimal text of an integer is not empty.
proof fn lemma_int_text_nonempty(x: i64)
    ensures
        int_text(x as int).len() > 0,
{
    lemma_parse_format_i64(x);
    if int_text(x as int).len() == 0 {
        assert(int_text(x as int) =~= Seq::<char>::empty());
    }
}

/// Joining pieces with one more piece at the end adds the separator and
/// that piece.
proof fn lemma_joined_push(r: Seq<Seq<char>>, p: Seq<char>, sep: Seq<char>)
    requires
        r.len() >= 1,
    ensures
        joined(r.push(p), sep) == joined(r, sep) + sep + p,
    decreases r.len(),
{
    let rp = r.push(p);
    assert(rp[0] == r[0]);
    if r.len() == 1 {
        assert(rp.skip(1) =~= seq![p]);
        assert(joined(rp.skip(1), sep) == p);
        assert(joined(r, sep) == r[0]);
    } else {
        assert(rp.skip(1) =~= r.skip(1).push(p));
        lemma_joined_push(r.skip(1), p, sep);
        assert(joined(rp, sep) =~= joined(r, sep) + sep + p);
    }
}

/// Joining pieces whose last piece grew by one character grows the joined
/// text by that character.
proof fn lemma_joined_grow_last(r: Seq<Seq<char>>, c: char, sep: Seq<char>)
    requires
        r.len() >= 1,
    ensures
        joined(r.update(r.len() - 1, r.last().push(c)), sep) == joined(r, sep).push(c),
{
    let front = r.drop_last();
    let l = r.last();
    let g = r.update(r.len() - 1, l.push(c));
    assert(r =~= front.push(l));
    assert(g =~= front.push(l.push(c)));
    if front.len() == 0 {
        assert(joined(g, sep) == l.push(c));
        assert(joined(r, sep) == l);
    } else {
        lemma_joined_push(front, l, sep);
        lemma_joined_push(front, l.push(c), sep);
        assert(joined(front, sep) + sep + l.push(c) =~= (joined(front, sep) + sep + l).push(c));
    }
}

/// A dot path splits into at least one piece; the pieces join back to the
/// path with `.` between each two, and none of them holds a `.`.
pub proof fn law_split_dots(s: Seq<char>)
    ensures
        split_dots(s).len() >= 1,
        joined(split_dots(s), seq!['.']) == s,
        forall|i: int| 0 <= i < split_dots(s).len() ==> !(#[trigger] split_dots(s)[i]).contains('.'),
    decreases s.len(),
{
    if s.len() == 0 {
        assert(joined(split_dots(s), seq!['.']) == Seq::<char>::empty());
        assert(s =~= Seq::<char>::empty());
        assert(split_dots(s)[0] =~= Seq::<char>::empty());
    } else {
        let front = s.drop_last();
        law_split_dots(front);
        let r = split_dots(front);
        assert(front.push(s.last()) =~= s);
        if s.last() == '.' {
            lemma_joined_push(r, Seq::empty(), seq!['.']);
            assert(joined(r, seq!['.']) + seq!['.'] + Seq::<char>::empty() =~= s);
            assert forall|i: int| 0 <= i < split_dots(s).len() implies !(#[trigger] split_dots(s)[i]).contains('.') by {
                if i == r.len() {
                    assert(split_dots(s)[i] =~= Seq::<char>::empty());
                } else {
                    assert(split_dots(s)[i] == r[i]);
                }
            }
        } else {
            lemma_joined_grow_last(r, s.last(), seq!['.']);
            assert forall|i: int| 0 <= i < split_dots(s).len() implies !(#[trigger] split_dots(s)[i]).contains('.') by {
                if i == r.len() - 1 {
                    let q = r.last().push(s.last());
                    assert(split_dots(s)[i] == q);
                    assert(!r[i].contains('.'));
                    if q.contains('.') {
                        let j = choose|j: int| 0 <= j < q.len() && q[j] == '.';
                        if j < r.last().len() {
                            assert(r[i][j] == '.');
                        }
                    }
                } else {
                    assert(split_dots(s)[i] == r[i]);
                }
            }
        }
    }
}

/// The rule `{op: [v0, v1, ...]}` with literal arguments.
pub open spec fn over_literals(op: OpCode, vs: Seq<JsonValue>) -> NodeView {
    NodeView::Builtin(op, vs.map_values(|v: JsonValue| NodeView::Value(v)))
}

/// The numbers of `xs` as values.
pub open spec fn numbers(xs: Seq<i64>) -> Seq<JsonValue> {
    xs.map_values(|x: i64| JsonValue::Number(x as int))
}

/// The sum of the integers.
pub open spec fn total(xs: Seq<i64>) -> int
    decreases xs.len(),
{
    if xs.len() == 0 {
        0
    } else {
        total(xs.drop_last()) + xs.last()
    }
}

/// Literal arguments evaluate to themselves, from position `i` on.
proof fn lemma_literals<O: Operator>(
    vs: Seq<JsonValue>,
    i: nat,
    frames: Seq<FrameView>,
    root: JsonValue,
    cfg: EvaluationConfig,
    ops: Seq<(Seq<char>, O)>,
)
    requires
        i <= vs.len(),
    ensures
        eval_seq(vs.map_values(|v: JsonValue| NodeView::Value(v)), i, frames, root, cfg, ops)
            == Ok::<Seq<JsonValue>, EvalError>(vs.skip(i as int)),
    decreases vs.len() - i,
{
    let ns = vs.map_values(|v: JsonValue| NodeView::Value(v));
    if i < vs.len() {
        lemma_literals(vs, i + 1, frames, root, cfg, ops);
        assert(ns[i as int] == NodeView::Value(vs[i as int]));
        assert(eval_spec(ns[i as int], frames, root, cfg, ops) == Ok::<JsonValue, EvalError>(vs[i as int]));
        assert(seq![vs[i as int]] + vs.skip(i + 1 as int) =~= vs.skip(i as int));
        assert(eval_seq(ns, i, frames, root, cfg, ops) == Ok::<Seq<JsonValue>, EvalError>(
            seq![vs[i as int]] + vs.skip(i + 1 as int),
        ));
    } else {
        assert(ns.len() == vs.len());
        assert(vs.skip(i as int) =~= Seq::<JsonValue>::empty());
    }
}

/// A strict operator over literals is applied to their values.
proof fn lemma_over_literals<O: Operator>(
    op: OpCode,
    vs: Seq<JsonValue>,
    frames: Seq<FrameView>,
    root: JsonValue,
    cfg: EvaluationConfig,
    ops: Seq<(Seq<char>, O)>,
)
    requires
        is_strict_op(op),
    ensures
        eval_spec(over_literals(op, vs), frames, root, cfg, ops) == apply_spec(op, vs, cfg),
{
    lemma_literals(vs, 0, frames, root, cfg, ops);
    assert(vs.skip(0) =~= vs);
}

/// Numbers are their own numeric operands, from position `i` on.
proof fn lemma_number_operands(xs: Seq<i64>, i: nat, cfg: EvaluationConfig)
    requires
        i <= xs.len(),
    ensures
        operands_spec(numbers(xs), i, cfg) == Ok::<Option<Seq<i64>>, EvalError>(Some(xs.skip(i as int))),
    decreases xs.len() - i,
{
    if i < xs.len() {
        lemma_number_operands(xs, i + 1, cfg);
        assert(numbers(xs)[i as int] == JsonValue::Number(xs[i as int] as int));
        assert(seq![xs[i as int]] + xs.skip(i + 1 as int) =~= xs.skip(i as int));
    } else {
        assert(xs.skip(i as int) =~= Seq::<i64>::empty());
    }
}

/// The running sum from the sum of the first `i` integers.
proof fn lemma_running_sum(xs: Seq<i64>, i: nat)
    requires
        i <= xs.len(),
    ensures
        checked_sum(total(xs.take(i as int)), xs, i) == (if forall|k: int| i < k <= xs.len() ==> fits(
            #[trigger] total(xs.take(k)),
        ) {
            Some(total(xs))
        } else {
            None::<int>
        }),
    decreases xs.len() - i,
{
    if i < xs.len() {
        assert(xs.take(i + 1 as int).drop_last() =~= xs.take(i as int));
        assert(total(xs.take(i + 1 as int)) == total(xs.take(i as int)) + xs[i as int]);
        lemma_running_sum(xs, i + 1);
    } else {
        assert(xs.take(i as int) =~= xs);
    }
}

/// `+` over integer literals gives their sum when every running sum fits in
/// 64 bits, and fails otherwise; `cat` over string literals joins them all.
pub proof fn law_sum_and_concatenation<O: Operator>(
    xs: Seq<i64>,
    ts: Seq<Seq<char>>,
    frames: Seq<FrameView>,
    root: JsonValue,
    cfg: EvaluationConfig,
    ops: Seq<(Seq<char>, O)>,
)
    ensures
        eval_spec(over_literals(OpCode::Add, numbers(xs)), frames, root, cfg, ops) == (if forall|k: int|
            0 < k <= xs.len() ==> fits(#[trigger] total(xs.take(k))) {
            Ok::<JsonValue, EvalError>(JsonValue::Number(total(xs)))
        } else {
            Err(overflow())
        }),
        eval_spec(
            over_literals(OpCode::Cat, ts.map_values(|t: Seq<char>| JsonValue::Str(t))),
            frames,
            root,
            cfg,
            ops,
        ) == Ok::<JsonValue, EvalError>(JsonValue::Str(ts.flatten())),
{
    lemma_over_literals(OpCode::Add, numbers(xs), frames, root, cfg, ops);
    lemma_number_operands(xs, 0, cfg);
    assert(xs.skip(0) =~= xs);
    assert(xs.take(0) =~= Seq::<i64>::empty());
    lemma_running_sum(xs, 0);
    let strs = ts.map_values(|t: Seq<char>| JsonValue::Str(t));
    lemma_over_literals(OpCode::Cat, strs, frames, root, cfg, ops);
    lemma_concat_texts(ts, 0);
    assert(ts.skip(0) =~= ts);
}

/// Joining string values from position `i` on joins their texts.
proof fn lemma_concat_texts(ts: Seq<Seq<char>>, i: nat)
    requires
        i <= ts.len(),
    ensures
        concat_spec(ts.map_values(|t: Seq<char>| JsonValue::Str(t)), i) == ts.skip(i as int).flatten(),
    decreases ts.len() - i,
{
    let strs = ts.map_values(|t: Seq<char>| JsonValue::Str(t));
    if i < ts.len() {
        lemma_concat_texts(ts, i + 1);
        assert(strs[i as int] == JsonValue::Str(ts[i as int]));
        assert(ts.skip(i as int).drop_first() =~= ts.skip(i + 1 as int));
        assert(ts.skip(i as int).first() == ts[i as int]);
    } else {
        assert(ts.skip(i as int) =~= Seq::<Seq<char>>::empty());
    }
}

/// The running extreme from `i` on is no worse than `acc` and every later
/// integer, and is `acc` or one of them.
proof fn lemma_extreme(max: bool, acc: int, xs: Seq<i64>, i: nat)
    requires
        i <= xs.len(),
    ensures
        ({
            let m = extreme(max, acc, xs, i);
            &&& (if max { m >= acc } else { m <= acc })
            &&& forall|j: int| i <= j < xs.len() ==> (if max { m >= #[trigger] xs[j] } else { m <= xs[j] })
            &&& (m == acc || exists|j: int| i <= j < xs.len() && m == #[trigger] xs[j])
        }),
    decreases xs.len() - i,
{
    if i < xs.len() {
        let x = xs[i as int] as int;
        let next = if (max && x > acc) || (!max && x < acc) { x } else { acc };
        lemma_extreme(max, next, xs, i + 1);
        let m = extreme(max, next, xs, i + 1);
        if m != next {
            let j = choose|j: int| i + 1 <= j < xs.len() && m == #[trigger] xs[j];
            assert(i <= j < xs.len() && m == xs[j]);
        } else if next == x {
            assert(m == xs[i as int]);
        }
    }
}

/// `min` and `max` over integer literals, at least one, give the least and
/// the greatest of them; with none they give `null`.
pub proof fn law_min_max<O: Operator>(
    xs: Seq<i64>,
    frames: Seq<FrameView>,
    root: JsonValue,
    cfg: EvaluationConfig,
    ops: Seq<(Seq<char>, O)>,
)
    ensures
        xs.len() > 0 ==> (eval_spec(over_literals(OpCode::Min, numbers(xs)), frames, root, cfg, ops) matches Ok(
            JsonValue::Number(m),
        ) && (forall|j: int| 0 <= j < xs.len() ==> m <= #[trigger] xs[j]) && exists|j: int|
            0 <= j < xs.len() && m == #[trigger] xs[j]),
        xs.len() > 0 ==> (eval_spec(over_literals(OpCode::Max, numbers(xs)), frames, root, cfg, ops) matches Ok(
            JsonValue::Number(m),
        ) && (forall|j: int| 0 <= j < xs.len() ==> m >= #[trigger] xs[j]) && exists|j: int|
            0 <= j < xs.len() && m == #[trigger] xs[j]),
        xs.len() == 0 ==> eval_spec(over_literals(OpCode::Min, numbers(xs)), frames, root, cfg, ops)
            == Ok::<JsonValue, EvalError>(JsonValue::Null),
        xs.len() == 0 ==> eval_spec(over_literals(OpCode::Max, numbers(xs)), frames, root, cfg, ops)
            == Ok::<JsonValue, EvalError>(JsonValue::Null),
{
    lemma_over_literals(OpCode::Min, numbers(xs), frames, root, cfg, ops);
    lemma_over_literals(OpCode::Max, numbers(xs), frames, root, cfg, ops);
    lemma_number_operands(xs, 0, cfg);
    assert(xs.skip(0) =~= xs);
    if xs.len() > 0 {
        lemma_extreme(false, xs[0] as int, xs, 1);
        lemma_extreme(true, xs[0] as int, xs, 1);
    }
}

/// `and` over literals from `i` stops at the first falsy value, or the last.
proof fn lemma_and_chain<O: Operator>(
    vs: Seq<JsonValue>,
    i: nat,
    k: int,
    frames: Seq<FrameView>,
    root: JsonValue,
    cfg: EvaluationConfig,
    ops: Seq<(Seq<char>, O)>,
)
    requires
        i <= k < vs.len(),
        forall|j: int| i <= j < k ==> truthy_spec(#[trigger] vs[j], cfg.truthy_evaluator),
        !truthy_spec(vs[k], cfg.truthy_evaluator) || k == vs.len() - 1,
    ensures
        eval_and(vs.map_values(|v: JsonValue| NodeView::Value(v)), i, frames, root, cfg, ops)
            == Ok::<JsonValue, EvalError>(vs[k]),
    decreases k - i,
{
    let ns = vs.map_values(|v: JsonValue| NodeView::Value(v));
    assert(eval_spec(ns[i as int], frames, root, cfg, ops) == Ok::<JsonValue, EvalError>(vs[i as int]));
    if i < k {
        lemma_and_chain(vs, i + 1, k, frames, root, cfg, ops);
    }
}

/// `or` over literals from `i` stops at the first truthy value, or the last.
proof fn lemma_or_chain<O: Operator>(
    vs: Seq<JsonValue>,
    i: nat,
    k: int,
    frames: Seq<FrameView>,
    root: JsonValue,
    cfg: EvaluationConfig,
    ops: Seq<(Seq<char>, O)>,
)
    requires
        i <= k < vs.len(),
        forall|j: int| i <= j < k ==> !truthy_spec(#[trigger] vs[j], cfg.truthy_evaluator),
        truthy_spec(vs[k], cfg.truthy_evaluator) || k == vs.len() - 1,
    ensures
        eval_or(vs.map_values(|v: JsonValue| NodeView::Value(v)), i, frames, root, cfg, ops)
            == Ok::<JsonValue, EvalError>(vs[k]),
    decreases k - i,
{
    let ns = vs.map_values(|v: JsonValue| NodeView::Value(v));
    assert(eval_spec(ns[i as int], frames, root, cfg, ops) == Ok::<JsonValue, EvalError>(vs[i as int]));
    if i < k {
        lemma_or_chain(vs, i + 1, k, frames, root, cfg, ops);
    }
}

/// An `if` chain over literals from `i` picks the branch after the first
/// truthy condition.
proof fn lemma_if_hit<O: Operator>(
    vs: Seq<JsonValue>,
    i: nat,
    k: int,
    frames: Seq<FrameView>,
    root: JsonValue,
    cfg: EvaluationConfig,
    ops: Seq<(Seq<char>, O)>,
)
    requires
        i <= k,
        k + 1 < vs.len(),
        (k - i) % 2 == 0,
        truthy_spec(vs[k], cfg.truthy_evaluator),
        forall|j: int| i <= j < k && (j - i) % 2 == 0 ==> !truthy_spec(#[trigger] vs[j], cfg.truthy_evaluator),
    ensures
        eval_if(vs.map_values(|v: JsonValue| NodeView::Value(v)), i, frames, root, cfg, ops)
            == Ok::<JsonValue, EvalError>(vs[k + 1]),
    decreases k - i,
{
    let ns = vs.map_values(|v: JsonValue| NodeView::Value(v));
    assert(eval_spec(ns[i as int], frames, root, cfg, ops) == Ok::<JsonValue, EvalError>(vs[i as int]));
    assert(eval_spec(ns[i + 1 as int], frames, root, cfg, ops) == Ok::<JsonValue, EvalError>(vs[i + 1 as int]));
    if i < k {
        assert forall|j: int| i + 2 <= j < k && (j - (i + 2)) % 2 == 0 implies !truthy_spec(
            #[trigger] vs[j],
            cfg.truthy_evaluator,
        ) by {
            assert((j - i) % 2 == 0);
        }
        lemma_if_hit(vs, i + 2, k, frames, root, cfg, ops);
    }
}

/// An `if` chain over literals from `i` with no truthy condition gives its
/// trailing `else` value, or `null` without one.
proof fn lemma_if_miss<O: Operator>(
    vs: Seq<JsonValue>,
    i: nat,
    frames: Seq<FrameView>,
    root: JsonValue,
    cfg: EvaluationConfig,
    ops: Seq<(Seq<char>, O)>,
)
    requires
        forall|j: int| i <= j && j + 1 < vs.len() && (j - i) % 2 == 0 ==> !truthy_spec(#[trigger] vs[j], cfg.truthy_evaluator),
    ensures
        eval_if(vs.map_values(|v: JsonValue| NodeView::Value(v)), i, frames, root, cfg, ops) == Ok::<JsonValue, EvalError>(
            if i < vs.len() && (vs.len() - i) % 2 == 1 { vs[vs.len() - 1] } else { JsonValue::Null },
        ),
    decreases vs.len() - i,
{
    let ns = vs.map_values(|v: JsonValue| NodeView::Value(v));
    if i < vs.len() {
        assert(eval_spec(ns[i as int], frames, root, cfg, ops) == Ok::<JsonValue, EvalError>(vs[i as int]));
        if i + 1 < vs.len() {
            assert forall|j: int| i + 2 <= j && j + 1 < vs.len() && (j - (i + 2)) % 2 == 0 implies !truthy_spec(
                #[trigger] vs[j],
                cfg.truthy_evaluator,
            ) by {
                assert((j - i) % 2 == 0);
            }
            lemma_if_miss(vs, i + 2, frames, root, cfg, ops);
        }
    }
}

/// `if`, `and` and `or` over any number of literals: `if` gives the value
/// after the first truthy condition, and when no condition is truthy its
/// trailing `else` value, or `null` without one; `and` gives the first falsy
/// value, or the last value when all are truthy; `or` gives the first
/// truthy value, or the last when none is.
pub proof fn law_logic_chains<O: Operator>(
    vs: Seq<JsonValue>,
    k: int,
    frames: Seq<FrameView>,
    root: JsonValue,
    cfg: EvaluationConfig,
    ops: Seq<(Seq<char>, O)>,
)
    ensures
        (0 <= k && k + 1 < vs.len() && k % 2 == 0 && truthy_spec(vs[k], cfg.truthy_evaluator) && forall|j: int|
            0 <= j < k && j % 2 == 0 ==> !truthy_spec(#[trigger] vs[j], cfg.truthy_evaluator)) ==> eval_spec(
            over_literals(OpCode::If, vs),
            frames,
            root,
            cfg,
            ops,
        ) == Ok::<JsonValue, EvalError>(vs[k + 1]),
        (forall|j: int| 0 <= j && j + 1 < vs.len() && j % 2 == 0 ==> !truthy_spec(#[trigger] vs[j], cfg.truthy_evaluator))
            ==> eval_spec(over_literals(OpCode::If, vs), frames, root, cfg, ops) == Ok::<JsonValue, EvalError>(
            if vs.len() % 2 == 1 { vs[vs.len() - 1] } else { JsonValue::Null },
        ),
        (0 <= k < vs.len() && (!truthy_spec(vs[k], cfg.truthy_evaluator) || k == vs.len() - 1) && forall|j: int|
            0 <= j < k ==> truthy_spec(#[trigger] vs[j], cfg.truthy_evaluator)) ==> eval_spec(
            over_literals(OpCode::And, vs),
            frames,
            root,
            cfg,
            ops,
        ) == Ok::<JsonValue, EvalError>(vs[k]),
        (0 <= k < vs.len() && (truthy_spec(vs[k], cfg.truthy_evaluator) || k == vs.len() - 1) && forall|j: int|
            0 <= j < k ==> !truthy_spec(#[trigger] vs[j], cfg.truthy_evaluator)) ==> eval_spec(
            over_literals(OpCode::Or, vs),
            frames,
            root,
            cfg,
            ops,
        ) == Ok::<JsonValue, EvalError>(vs[k]),
        vs.len() == 0 ==> eval_spec(over_literals(OpCode::And, vs), frames, root, cfg, ops) == Ok::<
            JsonValue,
            EvalError,
        >(JsonValue::Null),
        vs.len() == 0 ==> eval_spec(over_literals(OpCode::Or, vs), frames, root, cfg, ops) == Ok::<
            JsonValue,
            EvalError,
        >(JsonValue::Null),
{
    if vs.len() == 0 {
        let ns = vs.map_values(|v: JsonValue| NodeView::Value(v));
        assert(ns.len() == 0);
        assert(eval_and(ns, 0, frames, root, cfg, ops) == Ok::<JsonValue, EvalError>(JsonValue::Null));
        assert(eval_or(ns, 0, frames, root, cfg, ops) == Ok::<JsonValue, EvalError>(JsonValue::Null));
    }
    if 0 <= k && k + 1 < vs.len() && k % 2 == 0 && truthy_spec(vs[k], cfg.truthy_evaluator) && forall|j: int|
        0 <= j < k && j % 2 == 0 ==> !truthy_spec(#[trigger] vs[j], cfg.truthy_evaluator) {
        lemma_if_hit(vs, 0, k, frames, root, cfg, ops);
    }
    if forall|j: int| 0 <= j && j + 1 < vs.len() && j % 2 == 0 ==> !truthy_spec(#[trigger] vs[j], cfg.truthy_evaluator) {
        lemma_if_miss(vs, 0, frames, root, cfg, ops);
    }
    if 0 <= k < vs.len() && (!truthy_spec(vs[k], cfg.truthy_evaluator) || k == vs.len() - 1) && forall|j: int|
        0 <= j < k ==> truthy_spec(#[trigger] vs[j], cfg.truthy_evaluator) {
        lemma_and_chain(vs, 0, k, frames, root, cfg, ops);
    }
    if 0 <= k < vs.len() && (truthy_spec(vs[k], cfg.truthy_evaluator) || k == vs.len() - 1) && forall|j: int|
        0 <= j < k ==> !truthy_spec(#[trigger] vs[j], cfg.truthy_evaluator) {
        lemma_or_chain(vs, 0, k, frames, root, cfg, ops);
    }
}

/// A text without `.` is a dot path of one piece.
proof fn lemma_split_dots_single(k: Seq<char>)
    requires
        !k.contains('.'),
    ensures
        split_dots(k) == seq![k],
    decreases k.len(),
{
    if k.len() == 0 {
        assert(k =~= Seq::<char>::empty());
    } else {
        let front = k.drop_last();
        if front.contains('.') {
            let j = choose|j: int| 0 <= j < front.len() && front[j] == '.';
            assert(k[j] == '.');
        }
        lemma_split_dots_single(front);
        assert(k.last() != '.');
        assert(front.push(k.last()) =~= k);
        assert(seq![front].update(0, front.push(k.last())) =~= seq![k]);
    }
}

/// Run-time `var` and `val` on the data: `var` with a path and a default
/// gives what the dot path finds, or the default when it finds nothing; a
/// `var` key without dots and a `val` key (dots and all) read the first
/// entry with that key of an object, and `val` gives `null` when no entry
/// has it.
pub proof fn law_dynamic_access<O: Operator>(
    ps: Seq<(Seq<char>, JsonValue)>,
    k: Seq<char>,
    i: int,
    d: JsonValue,
    root: JsonValue,
    cfg: EvaluationConfig,
    ops: Seq<(Seq<char>, O)>,
)
    ensures
        eval_spec(binary(OpCode::Var, JsonValue::Str(k), d), Seq::empty(), root, cfg, ops)
            == Ok::<JsonValue, EvalError>(
            match access_path_spec(root, k) {
                Some(v) => v,
                None => d,
            },
        ),
        (0 <= i < ps.len() && ps[i].0 == k && forall|j: int| 0 <= j < i ==> (#[trigger] ps[j]).0 != k) ==> {
            &&& !k.contains('.') && k.len() > 0 ==> eval_spec(
                unary(OpCode::Var, JsonValue::Str(k)),
                Seq::empty(),
                JsonValue::Object(ps),
                cfg,
                ops,
            ) == Ok::<JsonValue, EvalError>(ps[i].1)
            &&& eval_spec(unary(OpCode::Val, JsonValue::Str(k)), Seq::empty(), JsonValue::Object(ps), cfg, ops)
                == Ok::<JsonValue, EvalError>(ps[i].1)
        },
        (forall|j: int| 0 <= j < ps.len() ==> (#[trigger] ps[j]).0 != k) ==> eval_spec(
            unary(OpCode::Val, JsonValue::Str(k)),
            Seq::empty(),
            JsonValue::Object(ps),
            cfg,
            ops,
        ) == Ok::<JsonValue, EvalError>(JsonValue::Null),
{
    let none = Seq::<FrameView>::empty();
    assert(frame_at(none, 0) is None);
    assert(scope_data(none, root, 0) == root);
    assert(scope_data(none, JsonValue::Object(ps), 0) == JsonValue::Object(ps));
    law_access_path_matches_compiled_segments(root, k);
    let two = seq![NodeView::Value(JsonValue::Str(k)), NodeView::Value(d)];
    let one = seq![NodeView::Value(JsonValue::Str(k))];
    lemma_literals(seq![JsonValue::Str(k), d], 0, none, root, cfg, ops);
    assert(seq![JsonValue::Str(k), d].map_values(|v: JsonValue| NodeView::Value(v)) =~= two);
    assert(seq![JsonValue::Str(k), d].skip(0) =~= seq![JsonValue::Str(k), d]);
    lemma_literals(seq![JsonValue::Str(k)], 0, none, JsonValue::Object(ps), cfg, ops);
    assert(seq![JsonValue::Str(k)].map_values(|v: JsonValue| NodeView::Value(v)) =~= one);
    assert(seq![JsonValue::Str(k)].skip(0) =~= seq![JsonValue::Str(k)]);
    if k.len() == 0 {
        assert(parse_path_spec(k) =~= Seq::<SegmentView>::empty());
    }
    let seg = segment_of(k);
    let segs = seq![seg];
    assert(segs.skip(1) =~= Seq::<SegmentView>::empty());
    assert(val_parts(seq![JsonValue::Str(k)], 1) == Some(Seq::<SegmentView>::empty()));
    assert(seq![seg] + Seq::<SegmentView>::empty() =~= segs);
    assert(val_parts(seq![JsonValue::Str(k)], 0) == Some(segs));
    if 0 <= i < ps.len() && ps[i].0 == k && forall|j: int| 0 <= j < i ==> (#[trigger] ps[j]).0 != k {
        lemma_lookup_first(ps, k, i);
        assert(traverse_spec(ps[i].1, segs.skip(1)) == Some(ps[i].1));
        assert(traverse_spec(JsonValue::Object(ps), segs) == Some(ps[i].1));
        if !k.contains('.') && k.len() > 0 {
            lemma_split_dots_single(k);
            assert(parse_path_spec(k) =~= segs);
        }
    }
    if forall|j: int| 0 <= j < ps.len() ==> (#[trigger] ps[j]).0 != k {
        lemma_lookup_none(ps, k);
        assert(traverse_spec(JsonValue::Object(ps), segs) is None);
    }
}

/// Inside iterations: in a `reduce` step, `current` reads the element and
/// `accumulator` the accumulator; in a step over an object's entries, the
/// key metadata reads the entry's key; an array of rules gives the array
/// of their values and a template object the object of its fields' values.
pub proof fn law_iteration_context<O: Operator>(
    c: JsonValue,
    a: JsonValue,
    x: JsonValue,
    pos: usize,
    key: Seq<char>,
    vs: Seq<JsonValue>,
    fields: Seq<(Seq<char>, JsonValue)>,
    frames: Seq<FrameView>,
    root: JsonValue,
    cfg: EvaluationConfig,
    ops: Seq<(Seq<char>, O)>,
)
    ensures
        eval_spec(
            NodeView::Var {
                scope_level: 0,
                segments: Seq::empty(),
                reduce_hint: ReduceHint::Current,
                metadata_hint: MetadataHint::NoHint,
                default_value: None,
            },
            frames.push(FrameView::Reduce(c, a)),
            root,
            cfg,
            ops,
        ) == Ok::<JsonValue, EvalError>(c),
        eval_spec(
            NodeView::Var {
                scope_level: 0,
                segments: Seq::empty(),
                reduce_hint: ReduceHint::Accumulator,
                metadata_hint: MetadataHint::NoHint,
                default_value: None,
            },
            frames.push(FrameView::Reduce(c, a)),
            root,
            cfg,
            ops,
        ) == Ok::<JsonValue, EvalError>(a),
        eval_spec(
            NodeView::Var {
                scope_level: 0,
                segments: Seq::empty(),
                reduce_hint: ReduceHint::NoHint,
                metadata_hint: MetadataHint::Key,
                default_value: None,
            },
            frames.push(FrameView::Keyed(x, pos, key)),
            root,
            cfg,
            ops,
        ) == Ok::<JsonValue, EvalError>(JsonValue::Str(key)),
        eval_spec(NodeView::Array(vs.map_values(|v: JsonValue| NodeView::Value(v))), frames, root, cfg, ops)
            == Ok::<JsonValue, EvalError>(JsonValue::Array(vs)),
        eval_spec(
            NodeView::Structured(fields.map_values(|f: (Seq<char>, JsonValue)| (f.0, NodeView::Value(f.1)))),
            frames,
            root,
            cfg,
            ops,
        ) == Ok::<JsonValue, EvalError>(JsonValue::Object(fields)),
{
    let top = frames.push(FrameView::Reduce(c, a));
    assert(frame_at(top, 0) == Some(FrameView::Reduce(c, a)));
    let keyed = frames.push(FrameView::Keyed(x, pos, key));
    assert(frame_at(keyed, 0) == Some(FrameView::Keyed(x, pos, key)));
    lemma_literals(vs, 0, frames, root, cfg, ops);
    assert(vs.skip(0) =~= vs);
    lemma_literal_fields(fields, 0, frames, root, cfg, ops);
    assert(fields.skip(0) =~= fields);
}

/// Literal template fields evaluate to themselves, from position `i` on.
proof fn lemma_literal_fields<O: Operator>(
    fields: Seq<(Seq<char>, JsonValue)>,
    i: nat,
    frames: Seq<FrameView>,
    root: JsonValue,
    cfg: EvaluationConfig,
    ops: Seq<(Seq<char>, O)>,
)
    requires
        i <= fields.len(),
    ensures
        eval_fields(
            fields.map_values(|f: (Seq<char>, JsonValue)| (f.0, NodeView::Value(f.1))),
            i,
            frames,
            root,
            cfg,
            ops,
        ) == Ok::<Seq<(Seq<char>, JsonValue)>, EvalError>(fields.skip(i as int)),
    decreases fields.len() - i,
{
    let fs = fields.map_values(|f: (Seq<char>, JsonValue)| (f.0, NodeView::Value(f.1)));
    if i < fields.len() {
        lemma_literal_fields(fields, i + 1, frames, root, cfg, ops);
        assert(fs[i as int] == (fields[i as int].0, NodeView::Value(fields[i as int].1)));
        assert(eval_spec(fs[i as int].1, frames, root, cfg, ops) == Ok::<JsonValue, EvalError>(fields[i as int].1));
        assert(seq![(fields[i as int].0, fields[i as int].1)] + fields.skip(i + 1 as int) =~= fields.skip(i as int));
        assert(eval_fields(fs, i, frames, root, cfg, ops) == Ok::<Seq<(Seq<char>, JsonValue)>, EvalError>(
            seq![(fields[i as int].0, fields[i as int].1)] + fields.skip(i + 1 as int),
        ));
    } else {
        assert(fs.len() == fields.len());
        assert(fields.skip(i as int) =~= Seq::<(Seq<char>, JsonValue)>::empty());
    }
}

/// `missing` over pre-parsed paths from position `i` on reports the same
/// paths as the pre-parsed list of `missing_some`.
proof fn lemma_static_missing<O: Operator>(
    list: Seq<(Seq<char>, Seq<SegmentView>)>,
    i: nat,
    frames: Seq<FrameView>,
    root: JsonValue,
    cfg: EvaluationConfig,
    ops: Seq<(Seq<char>, O)>,
)
    requires
        i <= list.len(),
    ensures
        missing_args(
            list.map_values(|p: (Seq<char>, Seq<SegmentView>)| MissingArgView::Static(p.0, p.1)),
            i,
            frames,
            root,
            cfg,
            ops,
        ) == Ok::<Seq<JsonValue>, EvalError>(static_missing(scope_data(frames, root, 0), list, i)),
    decreases list.len() - i,
{
    let margs = list.map_values(|p: (Seq<char>, Seq<SegmentView>)| MissingArgView::Static(p.0, p.1));
    if i < list.len() {
        lemma_static_missing(list, i + 1, frames, root, cfg, ops);
        assert(margs[i as int] == MissingArgView::Static(list[i as int].0, list[i as int].1));
    } else {
        assert(margs.len() == list.len());
    }
}

/// `missing_some` with at least `m` of its paths wanted gives nothing when
/// at least `m` of them are present, and otherwise exactly what `missing`
/// gives on the same paths.
pub proof fn law_missing_some<O: Operator>(
    m: usize,
    list: Seq<(Seq<char>, Seq<SegmentView>)>,
    frames: Seq<FrameView>,
    root: JsonValue,
    cfg: EvaluationConfig,
    ops: Seq<(Seq<char>, O)>,
)
    ensures
        eval_spec(
            NodeView::Missing(list.map_values(|p: (Seq<char>, Seq<SegmentView>)| MissingArgView::Static(p.0, p.1))),
            frames,
            root,
            cfg,
            ops,
        ) matches Ok(JsonValue::Array(gone)) && eval_spec(
            NodeView::MissingSome(MissingMinView::Static(m), MissingPathsView::Static(list)),
            frames,
            root,
            cfg,
            ops,
        ) == Ok::<JsonValue, EvalError>(
            JsonValue::Array(if list.len() - gone.len() >= m { Seq::empty() } else { gone }),
        ),
{
    lemma_static_missing(list, 0, frames, root, cfg, ops);
}

/// The empty text is no integer.
proof fn lemma_empty_is_no_integer()
    ensures
        spec_parse_i64(Seq::empty()) is None,
{
}

/// Under the default settings: `true` and `false` add as 1 and 0, `null`
/// and `""` add as 0, truthiness follows JavaScript, a positive number
/// divided by zero gives the largest integer and a negative one the
/// smallest, and a non-number in arithmetic raises the not-a-number error.
pub proof fn law_default_settings<O: Operator>(
    x: i64,
    frames: Seq<FrameView>,
    root: JsonValue,
    ops: Seq<(Seq<char>, O)>,
)
    ensures
        eval_spec(binary(OpCode::Add, JsonValue::Bool(true), JsonValue::Bool(false)), frames, root, default_config(), ops)
            == Ok::<JsonValue, EvalError>(JsonValue::Number(1)),
        eval_spec(binary(OpCode::Add, JsonValue::Null, JsonValue::Number(x as int)), frames, root, default_config(), ops)
            == Ok::<JsonValue, EvalError>(JsonValue::Number(x as int)),
        eval_spec(
            binary(OpCode::Add, JsonValue::Str(Seq::empty()), JsonValue::Number(x as int)),
            frames,
            root,
            default_config(),
            ops,
        ) == Ok::<JsonValue, EvalError>(JsonValue::Number(x as int)),
        default_config().truthy_evaluator == TruthyEvaluator::JavaScript,
        x > 0 ==> eval_spec(binary(OpCode::Divide, JsonValue::Number(x as int), JsonValue::Number(0)), frames, root, default_config(), ops)
            == Ok::<JsonValue, EvalError>(JsonValue::Number(i64::MAX as int)),
        x < 0 ==> eval_spec(binary(OpCode::Divide, JsonValue::Number(x as int), JsonValue::Number(0)), frames, root, default_config(), ops)
            == Ok::<JsonValue, EvalError>(JsonValue::Number(i64::MIN as int)),
        eval_spec(
            binary(OpCode::Add, JsonValue::Array(Seq::empty()), JsonValue::Number(x as int)),
            frames,
            root,
            default_config(),
            ops,
        ) == Err::<JsonValue, EvalError>(EvalError::Thrown(JsonValue::Object(seq![("type"@, JsonValue::Str("NaN"@))]))),
{
    let cfg = default_config();
    law_integer_coercion(cfg.numeric_coercion);
    law_boolean_sum(true, false, frames, root, cfg, ops);
    assert(coerce_integer_spec(JsonValue::Number(x as int), cfg.numeric_coercion) == Some(x));
    law_two_operand_arithmetic(JsonValue::Null, JsonValue::Number(x as int), 0, x, frames, root, cfg, ops);
    law_two_operand_arithmetic(JsonValue::Str(Seq::empty()), JsonValue::Number(x as int), 0, x, frames, root, cfg, ops);
    lemma_two_operands(JsonValue::Number(x as int), JsonValue::Number(0), x, 0, cfg);
    lemma_binary(OpCode::Divide, JsonValue::Number(x as int), JsonValue::Number(0), frames, root, cfg, ops);
    lemma_binary(OpCode::Add, JsonValue::Array(Seq::empty()), JsonValue::Number(x as int), frames, root, cfg, ops);
}

/// Without an engine, an operator (other than the variable, `missing`,
/// `throw` and `preserve` forms) over two scalar literals compiles to that
/// operator over those literals.
pub proof fn law_compile_binary_literals(op: OpCode, a: JsonValue, b: JsonValue, preserve: bool)
    requires
        op != OpCode::Var && op != OpCode::Val && op != OpCode::Exists && op != OpCode::Missing && op
            != OpCode::MissingSome && op != OpCode::Throw && op != OpCode::Preserve,
        !(a is Array) && !(a is Object),
        !(b is Array) && !(b is Object),
    ensures
        compile_spec(
            JsonValue::Object(seq![(opcode_name(op), JsonValue::Array(seq![a, b]))]),
            None,
            preserve,
        ) == Some(binary(op, a, b)),
{
    law_opcode_name_round_trip(op);
    let items = seq![a, b];
    assert(items.subrange(0, 1) =~= seq![a]);
    assert(seq![a].subrange(0, 0) =~= Seq::<JsonValue>::empty());
    assert(compile_spec(a, None, preserve) == Some(NodeView::Value(a)));
    assert(compile_spec(b, None, preserve) == Some(NodeView::Value(b)));
    assert(compile_seq_spec(Seq::<JsonValue>::empty(), None, preserve) == Some(Seq::<NodeView>::empty()));
    assert(Seq::<NodeView>::empty().push(NodeView::Value(a)) =~= seq![NodeView::Value(a)]);
    assert(compile_seq_spec(seq![a], None, preserve) == Some(seq![NodeView::Value(a)]));
    assert(seq![NodeView::Value(a)].push(NodeView::Value(b)) =~= seq![NodeView::Value(a), NodeView::Value(b)]);
    assert(compile_seq_spec(items, None, preserve) == Some(seq![NodeView::Value(a), NodeView::Value(b)]));
    let args = seq![NodeView::Value(a), NodeView::Value(b)];
    assert(compile_args_spec(JsonValue::Array(items), None, preserve) == Some(args));
    assert(specialise_spec(op, args) is None);
    assert(throw_literal_spec(op, args) is None);
    assert(finish_builtin_spec(op, args, None) == NodeView::Builtin(op, args));
    assert(builtin_spec(op, JsonValue::Array(items), None, preserve) == Some(NodeView::Builtin(op, args)));
    assert(invocation_spec(opcode_name(op), JsonValue::Array(items), None, preserve) == Some(NodeView::Builtin(op, args)));
}

/// Compiled rules over literals, evaluated on any data: `{"<=": [x, y]}`
/// is true exactly when `x <= y` (so `{"<=": [x, x]}` is true), and
/// `{"starts_with": [a, b]}` exactly when `b` is a prefix of `a`.
pub proof fn law_compiled_rules<O: Operator>(
    x: int,
    y: int,
    a: Seq<char>,
    b: Seq<char>,
    frames: Seq<FrameView>,
    root: JsonValue,
    cfg: EvaluationConfig,
    ops: Seq<(Seq<char>, O)>,
)
    requires
        fits(x),
        fits(y),
    ensures
        compile_spec(
            JsonValue::Object(seq![("<="@, JsonValue::Array(seq![JsonValue::Number(x), JsonValue::Number(y)]))]),
            None,
            false,
        ) matches Some(n) && eval_spec(n, frames, root, cfg, ops) == Ok::<JsonValue, EvalError>(JsonValue::Bool(x <= y)),
        compile_spec(
            JsonValue::Object(seq![("starts_with"@, JsonValue::Array(seq![JsonValue::Str(a), JsonValue::Str(b)]))]),
            None,
            false,
        ) matches Some(n) && eval_spec(n, frames, root, cfg, ops) == Ok::<JsonValue, EvalError>(
            JsonValue::Bool(b.len() <= a.len() && a.subrange(0, b.len() as int) == b),
        ),
{
    law_compile_binary_literals(OpCode::LessThanEqual, JsonValue::Number(x), JsonValue::Number(y), false);
    law_compile_binary_literals(OpCode::StartsWith, JsonValue::Str(a), JsonValue::Str(b), false);
    law_integer_comparisons(x, y, frames, root, cfg, ops);
    law_starts_ends_with(a, b, frames, root, cfg, ops);
}

/// Escaping a joined text escapes each part.
proof fn lemma_escape_concat(a: Seq<char>, b: Seq<char>)
    ensures
        escape_text(a + b) == escape_text(a) + escape_text(b),
    decreases b.len(),
{
    if b.len() == 0 {
        assert(a + b =~= a);
        assert(escape_text(a) + escape_text(b) =~= escape_text(a));
    } else {
        lemma_escape_concat(a, b.drop_last());
        assert((a + b).drop_last() =~= a + b.drop_last());
        assert((a + b).last() == b.last());
        assert(escape_text(a) + escape_text(b) =~= escape_text(a) + escape_text(b.drop_last()) + escape_char(b.last()));
    }
}

/// A text with no quote, backslash or control character is its own escape.
proof fn lemma_escape_plain(s: Seq<char>)
    requires
        forall|i: int| 0 <= i < s.len() ==> #[trigger] s[i] != '"' && s[i] != '\\' && (s[i] as u32) >= 0x20,
    ensures
        escape_text(s) == s,
    decreases s.len(),
{
    if s.len() == 0 {
        assert(s =~= Seq::<char>::empty());
    } else {
        lemma_escape_plain(s.drop_last());
        assert(s[s.len() - 1] == s.last());
        assert(escape_char(s.last()) == seq![s.last()]);
        assert(s.drop_last().push(s.last()) =~= s);
        assert(s.drop_last() + seq![s.last()] =~= s);
    }
}

/// JSON rendering: a string with no quote, backslash or control character
/// is written between quotes as it is; escaping a joined text escapes each
/// part; the text of an integer reads back as that integer; and an array
/// of two values is their texts between brackets, separated by a comma.
pub proof fn law_json_rendering(s: Seq<char>, a: Seq<char>, b: Seq<char>, n: i64, v: JsonValue, w: JsonValue)
    ensures
        (forall|i: int| 0 <= i < s.len() ==> #[trigger] s[i] != '"' && s[i] != '\\' && (s[i] as u32) >= 0x20)
            ==> json_text(JsonValue::Str(s)) == seq!['"'] + s + seq!['"'],
        escape_text(a + b) == escape_text(a) + escape_text(b),
        spec_parse_i64(json_text(JsonValue::Number(n as int))) == Some(n),
        json_text(JsonValue::Array(seq![v, w])) == seq!['['] + json_text(v) + seq![','] + json_text(w) + seq![']'],
{
    if forall|i: int| 0 <= i < s.len() ==> #[trigger] s[i] != '"' && s[i] != '\\' && (s[i] as u32) >= 0x20 {
        lemma_escape_plain(s);
    }
    lemma_escape_concat(a, b);
    lemma_parse_format_i64(n);
    let vw = seq![v, w];
    assert(vw.subrange(0, 1) =~= seq![v]);
    assert(json_items(seq![v]) == json_text(v));
    assert(json_items(vw) == json_text(v) + seq![','] + json_text(w));
    assert(seq!['['] + (json_text(v) + seq![','] + json_text(w)) + seq![']'] =~= seq!['['] + json_text(v) + seq![',']
        + json_text(w) + seq![']']);
}

} // verus!
