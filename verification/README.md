# wasm-opt

Rust bindings to Binaryen's `wasm-opt` and `wasm-ctor-eval`, with the parts
that decide things verified by Verus.

- `src/` is the verified library:
  - `passes`: the optimization passes and the names Binaryen gives them;
    no two passes share a name.
  - `features` and `base`: the wasm features as users name them and as
    Binaryen numbers them, one bit each.
  - `api` and `run`: reader, writer and feature options, and the feature sets
    they come to.
  - `ctor_eval`: the options of a ctor evaluation, and the run that says which
    step comes next from how the last one went.
- `app/` holds the calls into Binaryen (through `wasm_opt_cxx_sys`) and the
  loop that performs the steps a run asks for.
- `tests/` runs the library on concrete values.
- `extras/` holds the C++ bridge function behind the check that each ctor is
  an exported function, for the build script's bridge to `wasm-ctor-eval`.
