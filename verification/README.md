# airlang prelude

The built-in functions of the Air language, verified with Verus.

- `src/types`: values (`val`), their deep copy and equality (`copy`), maps
  (`dict`), contexts with contracts (`vars`), records (`record`), integers carried
  by `num_bigint` (`bigint`), text (`text`).
- `src/prelude`: one module per group of built-in functions. Each function is
  given as a function value (name, context access, modes, and a tag naming its
  computation) and, beside it, the computation it performs (`fn_*`) with a
  contract over the mathematical model of values. Each module's `run` dispatches
  a tag to its computation.
- `src/prelude/apply.rs`: applying a built-in function value to a context and an
  input, proved to perform the computation its tag names.
- `src/prelude/meta.rs`: reading the build version.
- `src/prelude/mode`: modes, their written form, and reading them back;
  `mode/prim.rs` holds primitive modes whose parts may each be left out.
- `src/prelude/ctrl.rs` and `src/prelude/flow.rs`: blocks, `?`, and `for`, `loop`
  and `match` as state machines. A run asks its driver to evaluate an expression,
  bind a name, or finish, and is told what came of it. The evaluator is not part
  of this crate; `app/` runs the machines with an evaluator it is handed. The laws
  in `flow.rs` state what a run asks for in answer to given events.
- `src/laws.rs`: properties that relate several functions.
- `app/`: the per-thread solver state, where the build version is read from, and
  the loops that drive `for`, `loop` and `match`.
