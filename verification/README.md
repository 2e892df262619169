# alloc_budget

A budget for the memory that a template render allocates on the way to its output,
verified with [Verus](https://github.com/verus-lang/verus).

- `AllocTracker` keeps the running total of intermediate bytes for one render. `charge`
  adds to it, `check` only asks; both fail once the total would exceed the cap. A cap of
  `0` means unlimited.
- `BudgetWriter` is a `fmt::Write` sink that asks a size check before it grows, so an
  output of unknown size stops partway instead of being built in full.
- `Ledger` is the rule behind both, on a cap and a running total.

The contracts stand with the functions in `src/`. `src/laws.rs` holds what follows over many
charges and many writes: that charges add up, that a refusal is final, that the order of
charges is of no account, that a writer bounded by a tracker never holds more than the cap.

The running total of an `AllocTracker` is an atomic counter that several parts of a render
share. What it holds between two calls is therefore not part of any contract. The contracts
of `charge` and `check` name the operation made on the counter and fix the answer for the
value that it returned.

`tests/templates.rs` drives the budget through a small template evaluator.
