// The bridge function that the "check the ctors" step of a ctor evaluation
// calls (`wasm::ctorEvalCheckExports` in app/base.rs). It belongs beside
// `ctorEvalCanEval` and `ctorEvalRun` in the bridge that wasm-opt-sys's build
// script appends to `wasm-ctor-eval.cpp`, inside `namespace wasm_opt_rs`, with
// its declaration in wasm-opt-cxx-sys's `shims.h` and its cxx binding
// (`fn ctorEvalCheckExports(wasm: Pin<&mut Module>, ctors: &CxxString) ->
// Result<()>`).
//
// It splits `ctors` as `ctorEvalRun` does, and fails the way `evalCtors` does
// on a name that is not an exported function, without evaluating anything.

void ctorEvalCheckExports(wasm::Module& wasm, const std::string& ctors) {
  if (ctors.empty()) {
    return;
  }
  wasm::String::Split ctorList(ctors, ",");
  for (auto& ctor : ctorList) {
    auto* ex = wasm.getExportOrNull(ctor);
    if (!ex) {
      wasm::Fatal() << "export not found: " << ctor;
    }
    if (ex->kind != wasm::ExternalKind::Function) {
      wasm::Fatal() << "export is not a function: " << ctor;
    }
  }
}
