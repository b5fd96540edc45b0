# clarirs

Symbolic expressions over booleans, bit-vectors, floating-point numbers and
strings, with machine-checked contracts.

- `src/ast/op.rs` — the operations, the sort each yields (`kind`), the check of
  their operands (`valid_args`), their operands in order (`child_iter`,
  `children`), their variables and depth.
- `src/ast/node.rs` — expression nodes, which keep the context that made them
  and the hash they were given, and record the variables and the depth of
  their operation; `VarAst`, an expression tagged with its sort.
- `src/ast/typed.rs` — expressions of a known sort.
- `src/ast/hash.rs`, `src/ast/name.rs` — the hash (64-bit FNV-1a over the
  operation's name, parameters and operand hashes) and the operation names.
- `src/bitvec.rs` — bit-vector constants: a width and little-endian words whose
  number fits the width.
- `src/context.rs` — the builders, which refuse operands of the wrong sort and
  give each node the hash of its operation.
- `src/bv.rs` — bit-vector expressions as the Python bindings see them,
  including `BVV`, which reads integers, bytes and strings as constants.
- `src/laws.rs` — properties of every expression (depth, variables, equality).
- `app/lib.rs` — the Python module: classes, the cache of Python objects by
  hash, conversion of Python values, registration.
