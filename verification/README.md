# datalogic_rs

A verified core for JSONLogic rules, written in Verus.

- `value`, `json`, `text`, `path`: the JSON value type with its model,
  JSON text output, decimal text, and path lookup by dot paths and by
  pre-parsed segments.
- `config`, `truthy`: evaluation settings, truthiness, integer coercion.
- `opcode`, `node`, `operator`, `compile`, `optimize`, `engine`: operator
  names, the compiled node tree, compile-time specialisations of `var`,
  `val`, `exists`, `missing`, `missing_some`, `throw` and regex `split`,
  the compiler, the optimiser passes, and the engine settings.
- `eval`: evaluation of compiled rules over JSON data, with its
  specification `eval_spec`: literals, arrays, templates, `var` and `val`
  (literal and run-time paths), `exists`, `missing`, `missing_some`,
  `throw`, `try`, `??`, `if` / `?:`, `switch`, `and`, `or`, `!`, `!!`,
  equality, integer comparison and arithmetic (`+`, `-`, `*`, `/`, `%`,
  `abs`, `min`, `max`, `ceil`, `floor`; a quotient that is not an integer
  is an error, the values holding integers only), `cat`, `substr`,
  `slice`, `upper`, `lower`, `trim`, `split`, `starts_with`, `ends_with`,
  `in`, `merge`, `sort` (numbers or strings), `type`, `length`,
  `preserve`, and the iterating operators `map`, `filter`, `all`, `some`,
  `none`, `reduce`. Custom operators are values of a type implementing the
  `Operator` trait (in Verus code, since the trait carries its
  specification), handed to `evaluate_with_operators`; `RuleOperator`
  defines one by a rule. Only `now` and the date operators answer
  `InvalidOperator`. The engine's `evaluate` methods run it.
- `context`, `interner`, `singletons`, `error`, `constants`: the
  evaluation context stack, string interning into a `bumpalo` arena,
  fixed values, and the error type with its message and wire form.

Every function in `src/` carries a contract proved by Verus, except a few
trusted wrappers around `bumpalo`, `regex` and std calls (upper and lower case
among them), whose contracts restate what those
crates document or name their results. `app/` holds
the `serde_json` edge: JSON text in and out, and the std and serde traits
of the error type.
