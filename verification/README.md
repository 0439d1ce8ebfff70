# ocaml_interop

Safe conversions and calls between Rust and OCaml values, with the rules
of the library stated as Verus contracts and proved.

The library works on a model of the OCaml runtime: a heap of blocks that
only grows, immediates tagged in their lowest bit, and a registry of
named values. Every conversion states the abstract value it produces or
reads, and the laws in `conv::laws` prove that converting a Rust value to
OCaml and back gives the value back.

## Layout

- `src/mlvalues.rs`, `src/runtime.rs`, `src/value.rs`, `src/memory.rs`,
  `src/boxroot.rs`: the value representation, the runtime model, typed
  handles, allocation and roots.
- `src/conv/`: `ToOCaml` / `FromOCaml` for scalars, strings, options,
  results, tuples, lists and arrays, and the round-trip laws.
- `src/closure.rs`, `src/caller.rs`: calling registered OCaml closures; the
  OCaml code itself runs outside the library, through a runner.
- `src/exports.rs`: the functions exported to OCaml, as verified bodies.
- `src/inspect/`: a readable representation of any OCaml value.
- `src/derive/`: the decisions of the derive and `#[export]` macros
  (attribute reading, type classification, checks, enum layout) on a model
  of the parsed Rust items.
- `src/dune.rs`: the command line and outputs of a dune build.
- `src/polyvar.rs`: hashes of polymorphic variant tags.
- `app/`: process-level glue (runtime start-up, thread registration, running
  dune) around the library.
- `tests/`: the test suite.
