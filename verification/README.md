# airbender_cs

Verified building blocks of the constraint system of a RISC-V proving
machine over the Mersenne prime field `p = 2^31 - 1`.

- `field`: the prime field, with exact contracts for every operation.
- `definitions`, `constraint`: variables, booleans, numbers, and polynomials
  of degree at most two (terms and constraints), with their normal form,
  substitution and solving for a variable; every operation states the value
  it gives under any assignment of the variables.
- `utils`: masking helpers and the preprocessed form of a constraint used to
  evaluate it from witness values.
- `cs_debug_evaluator`: a witness held value by value, with reads that give
  back what was written.
- `lookup_input`, `circuit`, `placeholder`, `oracle`, `timestamps`,
  `common_constants`: the data types and constants of circuits and their
  witness sources.
- `witness_placer`, `scalar_types`, `witness_proxy`, `witness_generation`:
  the traits in which witness values are computed, their scalar
  implementation for booleans, machine integers and field elements, and the
  generated witness evaluation of the unified reduced machine circuit, each
  step stated as the row it leaves: its witness places and the lookups it
  made.

`app/` holds the serde, `Display` and `quote` support, on copies of the
library's types.

## Scope

The library covers the constraint algebra, the witness computation and its
evaluation. It does not hold:

- a quotient evaluation for the prover: that is arithmetic in the quartic
  extension of the field, which lives in a field crate this library does not
  depend on;
- circuit assembly (register and memory accesses, machine and execution
  state) or the choice among orthogonal constraint variants: these need a
  circuit trait, a lookup table driver and register and memory access types
  that the library does not define;
- lookup tables: a placer that evaluates lookups brings its own tables; the
  debug evaluator holds values only, so its lookups are never called, and its
  oracle reads give zero;
- a graph of resolution steps stored as `dyn Any`: `WitnessResolutionNode`
  chains two steps instead.
