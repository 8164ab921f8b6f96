# neon_core

The parts of the Neon Node.js bindings that compute, verified with Verus:
each public function states in its contract what it returns for every input,
over a mathematical model of its types.

- `src/ledger.rs`: the ledger of active borrows of binary data. Immutable
  borrows may overlap; a mutable borrow overlaps no other active borrow.
- `src/loans.rs`: the loan ledger of a locked VM, by object address: an object
  stays frozen until every immutable loan of it is settled.
- `src/bigint.rs`: `BigInt` values as a sign and little-endian 64-bit digits in
  normal form, the conversions to and from Rust integers (lossy exactly out of
  range, wrapping modulo `2^bits`), and decimal literals read with
  `num_bigint_dig`.
- `src/arguments.rs`: the arguments of a call, gathered in a `smallvec`
  `SmallVec`, and their count against the engine's limit.
- `src/values.rs`: string lengths, the argument limit, call kinds, date and
  string errors, and the per-isolate class map.
- `src/text.rs`: decimal and hexadecimal numerals, Unicode white space
  trimming, substring search, sorting and deduplication of strings.
- `src/classes.rs`, `src/boxed.rs`, `src/exports.rs`, `src/typescript.rs`,
  `src/tasks.rs`, `src/events.rs`, `src/pokemon.rs`: the classes, functions,
  tasks, emitters and data of the test modules.

`app/` holds what Verus does not see: the JSON forms of the library's types
(serde), the threads of the emitters, and the functions that compute with
floating point numbers. `tests/` runs the library on concrete values.
