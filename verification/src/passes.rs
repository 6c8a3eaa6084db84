use vstd::prelude::*;

verus! {

/// A Binaryen optimization pass.
///
/// These have the same names as given on the command line to
/// `wasm-opt`, but with Rust capitalization conventions.
// Keep these in the same order as PassRegistry::registerPasses
#[non_exhaustive]
#[derive(Copy, Clone, Debug, PartialEq, Eq, Structural)]
pub enum Pass {
    /// Lower unaligned loads and stores to smaller aligned ones.
    AlignmentLowering,
    /// Async/await style transform, allowing pausing and resuming.
    Asyncify,
    /// Tries to avoid reinterpret operations via more loads.
    AvoidReinterprets,
    /// Removes arguments to calls in an lto-like manner.
    Dae,
    /// Removes arguments to calls in an lto-like manner, and optimizes where removed.
    DaeOptimizing,
    /// Experimental reimplementation of DAE.
    Dae2,
    /// Refine and merge abstract (never-created) types.
    AbstractTypeRefining,
    /// Reduce # of locals by coalescing.
    CoalesceLocals,
    /// Reduce # of locals by coalescing and learning.
    CoalesceLocalsLearning,
    /// Push code forward, potentially making it not always execute.
    CodePushing,
    /// Fold code, merging duplicates.
    CodeFolding,
    /// Hoist repeated constants to a local.
    ConstHoisting,
    /// Propagate constant struct field values.
    Cfp,
    /// Propagate constant struct field values, using ref.test.
    CfpReftest,
    /// Finds and uses mathematical constraints on locals.
    ConstraintAnalysis,
    /// Removes unreachable code.
    Dce,
    /// Forces all loads and stores to have alignment 1.
    Dealign,
    /// Propagate debug location from parents or previous siblings to child nodes.
    PropagateDebugLocs,
    /// Instrument the wasm to convert NaNs into 0 at runtime.
    DeNan,
    /// Turns indirect calls into direct ones.
    Directize,
    /// Discards global effect info.
    DiscardGlobalEffects,
    /// Optimizes using the DataFlow SSA IR.
    Dfo,
    /// Dump DWARF debug info sections from the read binary.
    DwarfDump,
    /// Removes duplicate imports.
    DuplicateImportElimination,
    /// Removes duplicate functions.
    DuplicateFunctionElimination,
    /// Emit the target features section in the output.
    EmitTargetFeatures,
    /// Modify the wasm (destructively) for closed-world.
    EncloseWorld,
    /// Leaves just one function (useful for debugging).
    ExtractFunction,
    /// Leaves just one function selected by index.
    ExtractFunctionIndex,
    /// Flattens out code, removing nesting.
    Flatten,
    /// Emulates function pointer casts, allowing incorrect indirect calls to (sometimes) work.
    FpCastEmu,
    /// Reports function metrics.
    FuncMetrics,
    /// Generate dynCall fuctions used by emscripten ABI.
    GenerateDyncalls,
    /// Generate dynCall functions used by emscripten ABI, but only for functions with i64 in their signature (which cannot be invoked via the wasm table without JavaScript BigInt support).
    GenerateI64Dyncalls,
    /// Generate global effect info (helps later passes).
    GenerateGlobalEffects,
    /// Refine the types of globals.
    GlobalRefining,
    /// Globally optimize struct values.
    Gsi,
    /// Globally optimize struct values, also emitting ref.cast_desc_eq.
    GsiDescCast,
    /// Globally optimize GC types.
    Gto,
    /// Grand unified flow analyses.
    ///
    /// Optimize the entire program using information about what content can actually appear in each location.
    Gufa,
    /// GUFA plus add casts for all inferences.
    GufaCastAll,
    /// Gufa plus local optimizations in functions we modified.
    GufaOptimizing,
    /// Optimizes J2CL specific constructs.
    OptimizeJ2cl,
    /// Merges itable structures into vtables to make types more compact.
    MergeJ2clItables,
    /// Apply more specific subtypes to type fields where possible.
    TypeRefining,
    /// Apply more specific subtypes to type fields where possible (using GUFA).
    TypeRefiningGufa,
    /// Replace GC allocations with locals.
    Heap2Local,
    /// Optimize heap (GC) stores.
    HeapStoreOptimization,
    /// Inline __original_main into main.
    InlineMain,
    /// Inline functions (you probably want inlining-optimizing).
    Inlining,
    /// Inline functions and optimizes where we inlined.
    InliningOptimizing,
    /// Lower away binaryen intrinsics.
    IntrinsicLowering,
    /// Legalizes i64 types on the import/export boundary.
    LegalizeJsInterface,
    /// Legalizes the import/export boundary and prunes when needed.
    LegalizeAndPruneJsInterface,
    /// Common subexpression elimination inside basic blocks.
    LocalCse,
    /// Apply more specific subtypes to locals where possible.
    LocalSubtyping,
    /// Instrument the build with logging of where execution goes.
    LogExecution,
    /// Lower all uses of i64s to use i32s instead.
    I64ToI32Lowering,
    /// Instrument the build with code to intercept specific function calls.
    TraceCalls,
    /// Instrument branch hints so we can see which guessed right.
    InstrumentBranchHints,
    /// Instrument the build with code to intercept all loads and stores.
    InstrumentLocals,
    /// Instrument the build with code to intercept all loads and stores.
    InstrumentMemory,
    /// Loop invariant code motion.
    Licm,
    /// Attempt to merge segments to fit within web limits.
    LimitSegments,
    /// Make structs and arrays shared and functions unshared.
    MakeSharedObjects,
    /// Mark js called functions (using configureAll) as doing so.
    MarkJsCalled,
    /// Lower loads and stores to a 64-bit memory to instead use a 32-bit one.
    Memory64Lowering,
    /// Alias for memory64-lowering.
    Table64Lowering,
    /// Lower memory.copy and memory.fill to wasm mvp and disable the bulk-memory feature.
    LlvmMemoryCopyFillLowering,
    /// Packs memory into separate segments, skipping zeros.
    MemoryPacking,
    /// Merges blocks to their parents.
    MergeBlocks,
    /// Merges similar functions when benefical.
    MergeSimilarFunctions,
    /// Merges locals when beneficial.
    MergeLocals,
    /// Reports metrics.
    Metrics,
    /// Minifies import names (only those, and not export names), and emits a mapping to the minified ones.
    MinifyImports,
    /// Minifies both import and export names, and emits a mapping to the minified ones.
    MinifyImportsAndExports,
    /// Minifies both import and export names, and emits a mapping to the minified ones, and minifies the modules as well.
    MinifyImportsAndExportsAndModules,
    /// Split types into minimal recursion groups.
    MinimizeRecGroups,
    /// Creates specialized versions of functions.
    Monomorphize,
    /// Creates specialized versions of functions (even if unhelpful).
    MonomorphizeAlways,
    /// Combines multiple memories into a single memory.
    MultiMemoryLowering,
    /// Combines multiple memories into a single memory, trapping if the read or write is larger than the length of the memory's data.
    MultiMemoryLoweringWithBoundsChecks,
    /// Name list.
    Nm,
    /// (Re)name all heap types.
    NameTypes,
    /// Mark functions as no-inline.
    NoInline,
    /// Mark functions as no-inline (for full inlining only).
    NoFullInline,
    /// Mark functions as no-inline (for partial inlining only).
    NoPartialInline,
    /// Lower nontrapping float-to-int operations to wasm mvp and disable the nontrapping
    /// fptoint feature.
    LlvmNontrappingFptointLowering,
    /// Reduces calls to code that only runs once.
    OnceReduction,
    /// Optimizes added constants into load/store offsets.
    OptimizeAddedConstants,
    /// Optimizes added constants into load/store offsets, propagating them across locals too.
    OptimizeAddedConstantsPropagate,
    /// Eliminate and reuse casts.
    OptimizeCasts,
    /// Optimizes instruction combinations.
    OptimizeInstructions,
    /// Outline instructions.
    Outlining,
    /// Pick load signs based on their uses.
    PickLoadSigns,
    /// Tranform Binaryen IR into Poppy IR.
    Poppify,
    /// Miscellaneous optimizations for Emscripten-generated code.
    PostEmscripten,
    /// Early optimize of the instruction combinations for js.
    OptimizeForJs,
    /// Computes compile-time evaluatable expressions.
    Precompute,
    /// Computes compile-time evaluatable expressions and propagates.
    PrecomputePropagate,
    /// Print in s-expression format.
    Print,
    /// Print in minified s-expression format.
    PrintMinified,
    /// Print options for enabled features.
    PrintFeatures,
    /// Print in full s-expression format.
    PrintFull,
    /// Print boundary in JSON format.
    PrintBoundary,
    /// Print call graph.
    PrintCallGraph,
    /// Print a map of function indexes to names.
    PrintFunctionMap,
    /// (Alias for print-function-map).
    Symbolmap,
    /// Propagate global values to other globals (useful for tests).
    PropagateGlobalsGlobally,
    /// Removes operations incompatible with js.
    RemoveNonJsOps,
    /// Replaces relaxed SIMD instructions with unreachable.
    RemoveRelaxedSimd,
    /// Removes exports using a wildcard.
    RemoveExports,
    /// Removes imports and replaces them with nops.
    RemoveImports,
    /// Removes memory initialization.
    RemoveMemoryInit,
    /// Removes memory segments.
    RemoveMemory,
    /// Removes breaks from locations that are not needed.
    RemoveUnusedBrs,
    /// Removes unused module elements.
    RemoveUnusedModuleElements,
    /// Removes unused module elements that are not functions.
    RemoveUnusedNonfunctionModuleElements,
    /// Removes names from locations that are never branched to.
    RemoveUnusedNames,
    /// Remove unused private GC types.
    RemoveUnusedTypes,
    /// Sorts functions by name (useful for debugging).
    ReorderFunctionsByName,
    /// Sorts functions by access frequency.
    ReorderFunctions,
    /// Sorts globals by access frequency.
    ReorderGlobals,
    /// Sorts locals by access frequency.
    RecorderLocals,
    /// Sorts private types by access frequency.
    ReorderTypes,
    /// Re-optimize control flow using the relooper algorithm.
    Rereloop,
    /// Remove redundant local.sets.
    Rse,
    /// Write the module to binary, then read it.
    Roundtrip,
    /// Instrument loads and stores to check for invalid behavior.
    SafeHeap,
    /// Sets specified globals to specified values.
    SetGlobals,
    /// Write data segments to a file and strip them from the module.
    SeparateDataSegments,
    /// Remove params from function signature types where possible.
    SignaturePruning,
    /// Apply more specific subtypes to signature types where possible.
    SignatureRefining,
    /// Lower sign-ext operations to wasm mvp.
    SignextLowering,
    /// Miscellaneous globals-related optimizations.
    SimplifyGlobals,
    /// Miscellaneous globals-related optimizations, and optimizes where we replaced global.gets with constants.
    SimplifyGlobalsOptimizing,
    /// Miscellaneous locals-related optimizations.
    SimplifyLocals,
    /// Miscellaneous locals-related optimizations (no nesting at all; preserves flatness).
    SimplifyLocalsNonesting,
    /// Miscellaneous locals-related optimizations (no tees).
    SimplifyLocalsNotee,
    /// Miscellaneous locals-related optimizations (no structure).
    SimplifyLocalsNostructure,
    /// Miscellaneous locals-related optimizations (no tees or structure).
    SimplifyLocalsNoteeNostructure,
    /// Emit Souper IR in text form.
    Souperify,
    /// Emit Souper IR in text form (single-use nodes only).
    SouperifySingleUse,
    /// Spill pointers to the C stack (useful for Boehm-style GC).
    SpillPointers,
    /// Stub out unsupported JS operations.
    StubUnsupportedJs,
    /// Ssa-ify variables so that they have a single assignment.
    Ssa,
    /// Ssa-ify variables so that they have a single assignment, ignoring merges.
    SsaNomerge,
    /// Gathers wasm strings to globals.
    StringGathering,
    /// Lift string imports to wasm strings.
    StringLifting,
    /// Lowers wasm strings and operations to imports.
    StringLowering,
    /// Same as string-lowering, but encodes well-formed strings as magic imports.
    StringLoweringMagicImports,
    /// Same as string-lowering-magic-imports, but raise a fatal error if there are invalid
    /// strings.
    StringLoweringMagicImportsAssert,
    /// Deprecated; same as strip-debug.
    Strip,
    /// Enforce limits on llvm's __stack_pointer global.
    StackCheck,
    /// Strip debug info (including the names section).
    StripDebug,
    /// Strip dwarf debug info.
    StripDwarf,
    /// Strip the wasm producers section.
    StripProducers,
    /// Strip EH instructions.
    StripEh,
    /// Strip the wasm target features section.
    StripTargetFeatuers,
    /// Strip all toolchain-specific code annotations.
    StripToolchainAnnotations,
    /// Deprecated; same as translate-to-exnref.
    TranslateToNewEh,
    /// Translate old Phase 3 EH instructions to new ones with exnref.
    TranslateToExnref,
    /// Replace trapping operations with clamping semantics.
    TrapModeClamp,
    /// Replace trapping operations with js semantics.
    TrapModeJs,
    /// Optimize trivial tuples away.
    TupleOptimization,
    /// Mark all leaf types as final.
    TypeFinalizing,
    /// Merge types to their supertypes where possible.
    TypeMerging,
    /// Create new nominal types to help other optimizations.
    TypeSsa,
    /// Mark all types as non-final (open).
    TypeUnfinalizing,
    /// Removes unnecessary subtyping relationships.
    Unsubtyping,
    /// Removes local.tees, replacing them with sets and gets.
    Untee,
    /// Removes obviously unneeded code.
    Vacuum,
}

impl Pass {
    /// The name Binaryen gives the pass on its command line.
    pub open spec fn spec_name(self) -> Seq<char> {
        match self {
            Pass::AlignmentLowering => "alignment-lowering"@,
            Pass::Asyncify => "asyncify"@,
            Pass::AvoidReinterprets => "avoid-reinterprets"@,
            Pass::Dae => "dae"@,
            Pass::DaeOptimizing => "dae-optimizing"@,
            Pass::Dae2 => "dae2"@,
            Pass::AbstractTypeRefining => "abstract-type-refining"@,
            Pass::CoalesceLocals => "coalesce-locals"@,
            Pass::CoalesceLocalsLearning => "coalesce-locals-learning"@,
            Pass::CodePushing => "code-pushing"@,
            Pass::CodeFolding => "code-folding"@,
            Pass::ConstHoisting => "const-hoisting"@,
            Pass::Cfp => "cfp"@,
            Pass::CfpReftest => "cfp-reftest"@,
            Pass::ConstraintAnalysis => "constraint-analysis"@,
            Pass::Dce => "dce"@,
            Pass::Dealign => "dealign"@,
            Pass::PropagateDebugLocs => "propagate-debug-locs"@,
            Pass::DeNan => "denan"@,
            Pass::Directize => "directize"@,
            Pass::DiscardGlobalEffects => "discard-global-effects"@,
            Pass::Dfo => "dfo"@,
            Pass::DwarfDump => "dwarfdump"@,
            Pass::DuplicateImportElimination => "duplicate-import-elimination"@,
            Pass::DuplicateFunctionElimination => "duplicate-function-elimination"@,
            Pass::EmitTargetFeatures => "emit-target-features"@,
            Pass::EncloseWorld => "enclose-world"@,
            Pass::ExtractFunction => "extract-function"@,
            Pass::ExtractFunctionIndex => "extract-function-index"@,
            Pass::Flatten => "flatten"@,
            Pass::FpCastEmu => "fpcast-emu"@,
            Pass::FuncMetrics => "func-metrics"@,
            Pass::GenerateDyncalls => "generate-dyncalls"@,
            Pass::GenerateI64Dyncalls => "generate-i64-dyncalls"@,
            Pass::GenerateGlobalEffects => "generate-global-effects"@,
            Pass::GlobalRefining => "global-refining"@,
            Pass::Gsi => "gsi"@,
            Pass::GsiDescCast => "gsi-desc-cast"@,
            Pass::Gto => "gto"@,
            Pass::Gufa => "gufa"@,
            Pass::GufaCastAll => "gufa-cast-all"@,
            Pass::GufaOptimizing => "gufa-optimizing"@,
            Pass::OptimizeJ2cl => "optimize-j2cl"@,
            Pass::MergeJ2clItables => "merge-j2cl-itables"@,
            Pass::TypeRefining => "type-refining"@,
            Pass::TypeRefiningGufa => "type-refining-gufa"@,
            Pass::Heap2Local => "heap2local"@,
            Pass::HeapStoreOptimization => "heap-store-optimization"@,
            Pass::InlineMain => "inline-main"@,
            Pass::Inlining => "inlining"@,
            Pass::InliningOptimizing => "inlining-optimizing"@,
            Pass::IntrinsicLowering => "intrinsic-lowering"@,
            Pass::LegalizeJsInterface => "legalize-js-interface"@,
            Pass::LegalizeAndPruneJsInterface => "legalize-and-prune-js-interface"@,
            Pass::LocalCse => "local-cse"@,
            Pass::LocalSubtyping => "local-subtyping"@,
            Pass::LogExecution => "log-execution"@,
            Pass::I64ToI32Lowering => "i64-to-i32-lowering"@,
            Pass::TraceCalls => "trace-calls"@,
            Pass::InstrumentBranchHints => "instrument-branch-hints"@,
            Pass::InstrumentLocals => "instrument-locals"@,
            Pass::InstrumentMemory => "instrument-memory"@,
            Pass::Licm => "licm"@,
            Pass::LimitSegments => "limit-segments"@,
            Pass::MakeSharedObjects => "make-shared-objects"@,
            Pass::MarkJsCalled => "mark-js-called"@,
            Pass::Memory64Lowering => "memory64-lowering"@,
            Pass::Table64Lowering => "table64-lowering"@,
            Pass::LlvmMemoryCopyFillLowering => "llvm-memory-copy-fill-lowering"@,
            Pass::MemoryPacking => "memory-packing"@,
            Pass::MergeBlocks => "merge-blocks"@,
            Pass::MergeSimilarFunctions => "merge-similar-functions"@,
            Pass::MergeLocals => "merge-locals"@,
            Pass::Metrics => "metrics"@,
            Pass::MinifyImports => "minify-imports"@,
            Pass::MinifyImportsAndExports => "minify-imports-and-exports"@,
            Pass::MinifyImportsAndExportsAndModules => "minify-imports-and-exports-and-modules"@,
            Pass::MinimizeRecGroups => "minimize-rec-groups"@,
            Pass::Monomorphize => "monomorphize"@,
            Pass::MonomorphizeAlways => "monomorphize-always"@,
            Pass::MultiMemoryLowering => "multi-memory-lowering"@,
            Pass::MultiMemoryLoweringWithBoundsChecks => "multi-memory-lowering-with-bounds-checks"@,
            Pass::Nm => "nm"@,
            Pass::NameTypes => "name-types"@,
            Pass::NoInline => "no-inline"@,
            Pass::NoFullInline => "no-full-inline"@,
            Pass::NoPartialInline => "no-partial-inline"@,
            Pass::LlvmNontrappingFptointLowering => "llvm-nontrapping-fptoint-lowering"@,
            Pass::OnceReduction => "once-reduction"@,
            Pass::OptimizeAddedConstants => "optimize-added-constants"@,
            Pass::OptimizeAddedConstantsPropagate => "optimize-added-constants-propagate"@,
            Pass::OptimizeCasts => "optimize-casts"@,
            Pass::OptimizeInstructions => "optimize-instructions"@,
            Pass::Outlining => "outlining"@,
            Pass::PickLoadSigns => "pick-load-signs"@,
            Pass::Poppify => "poppify"@,
            Pass::PostEmscripten => "post-emscripten"@,
            Pass::OptimizeForJs => "optimize-for-js"@,
            Pass::Precompute => "precompute"@,
            Pass::PrecomputePropagate => "precompute-propagate"@,
            Pass::Print => "print"@,
            Pass::PrintMinified => "print-minified"@,
            Pass::PrintFeatures => "print-features"@,
            Pass::PrintFull => "print-full"@,
            Pass::PrintBoundary => "print-boundary"@,
            Pass::PrintCallGraph => "print-call-graph"@,
            Pass::PrintFunctionMap => "print-function-map"@,
            Pass::Symbolmap => "symbolmap"@,
            Pass::PropagateGlobalsGlobally => "propagate-globals-globally"@,
            Pass::RemoveNonJsOps => "remove-non-js-ops"@,
            Pass::RemoveRelaxedSimd => "remove-relaxed-simd"@,
            Pass::RemoveExports => "remove-exports"@,
            Pass::RemoveImports => "remove-imports"@,
            Pass::RemoveMemoryInit => "remove-memory-init"@,
            Pass::RemoveMemory => "remove-memory"@,
            Pass::RemoveUnusedBrs => "remove-unused-brs"@,
            Pass::RemoveUnusedModuleElements => "remove-unused-module-elements"@,
            Pass::RemoveUnusedNonfunctionModuleElements => "remove-unused-nonfunction-module-elements"@,
            Pass::RemoveUnusedNames => "remove-unused-names"@,
            Pass::RemoveUnusedTypes => "remove-unused-types"@,
            Pass::ReorderFunctionsByName => "reorder-functions-by-name"@,
            Pass::ReorderFunctions => "reorder-functions"@,
            Pass::ReorderGlobals => "reorder-globals"@,
            Pass::RecorderLocals => "reorder-locals"@,
            Pass::ReorderTypes => "reorder-types"@,
            Pass::Rereloop => "rereloop"@,
            Pass::Rse => "rse"@,
            Pass::Roundtrip => "roundtrip"@,
            Pass::SafeHeap => "safe-heap"@,
            Pass::SetGlobals => "set-globals"@,
            Pass::SeparateDataSegments => "separate-data-segments"@,
            Pass::SignaturePruning => "signature-pruning"@,
            Pass::SignatureRefining => "signature-refining"@,
            Pass::SignextLowering => "signext-lowering"@,
            Pass::SimplifyGlobals => "simplify-globals"@,
            Pass::SimplifyGlobalsOptimizing => "simplify-globals-optimizing"@,
            Pass::SimplifyLocals => "simplify-locals"@,
            Pass::SimplifyLocalsNonesting => "simplify-locals-nonesting"@,
            Pass::SimplifyLocalsNotee => "simplify-locals-notee"@,
            Pass::SimplifyLocalsNostructure => "simplify-locals-nostructure"@,
            Pass::SimplifyLocalsNoteeNostructure => "simplify-locals-notee-nostructure"@,
            Pass::Souperify => "souperify"@,
            Pass::SouperifySingleUse => "souperify-single-use"@,
            Pass::SpillPointers => "spill-pointers"@,
            Pass::StubUnsupportedJs => "stub-unsupported-js"@,
            Pass::Ssa => "ssa"@,
            Pass::SsaNomerge => "ssa-nomerge"@,
            Pass::StringGathering => "string-gathering"@,
            Pass::StringLifting => "string-lifting"@,
            Pass::StringLowering => "string-lowering"@,
            Pass::StringLoweringMagicImports => "string-lowering-magic-imports"@,
            Pass::StringLoweringMagicImportsAssert => "string-lowering-magic-imports-assert"@,
            Pass::Strip => "strip"@,
            Pass::StackCheck => "stack-check"@,
            Pass::StripDebug => "strip-debug"@,
            Pass::StripDwarf => "strip-dwarf"@,
            Pass::StripProducers => "strip-producers"@,
            Pass::StripEh => "strip-eh"@,
            Pass::StripTargetFeatuers => "strip-target-features"@,
            Pass::StripToolchainAnnotations => "strip-toolchain-annotations"@,
            Pass::TranslateToNewEh => "translate-to-new-eh"@,
            Pass::TranslateToExnref => "translate-to-exnref"@,
            Pass::TrapModeClamp => "trap-mode-clamp"@,
            Pass::TrapModeJs => "trap-mode-js"@,
            Pass::TupleOptimization => "tuple-optimization"@,
            Pass::TypeFinalizing => "type-finalizing"@,
            Pass::TypeMerging => "type-merging"@,
            Pass::TypeSsa => "type-ssa"@,
            Pass::TypeUnfinalizing => "type-unfinalizing"@,
            Pass::Unsubtyping => "unsubtyping"@,
            Pass::Untee => "untee"@,
            Pass::Vacuum => "vacuum"@,
        }
    }

    /// Returns the name of the pass.
    ///
    /// This is the same name used by Binaryen to identify the pass on the command line.
    pub fn name(&self) -> (name: &'static str)
        ensures
            name@ == self.spec_name(),
    {
        match self {
            Pass::AlignmentLowering => "alignment-lowering",
            Pass::Asyncify => "asyncify",
            Pass::AvoidReinterprets => "avoid-reinterprets",
            Pass::Dae => "dae",
            Pass::DaeOptimizing => "dae-optimizing",
            Pass::Dae2 => "dae2",
            Pass::AbstractTypeRefining => "abstract-type-refining",
            Pass::CoalesceLocals => "coalesce-locals",
            Pass::CoalesceLocalsLearning => "coalesce-locals-learning",
            Pass::CodePushing => "code-pushing",
            Pass::CodeFolding => "code-folding",
            Pass::ConstHoisting => "const-hoisting",
            Pass::Cfp => "cfp",
            Pass::CfpReftest => "cfp-reftest",
            Pass::ConstraintAnalysis => "constraint-analysis",
            Pass::Dce => "dce",
            Pass::Dealign => "dealign",
            Pass::PropagateDebugLocs => "propagate-debug-locs",
            Pass::DeNan => "denan",
            Pass::Directize => "directize",
            Pass::DiscardGlobalEffects => "discard-global-effects",
            Pass::Dfo => "dfo",
            Pass::DwarfDump => "dwarfdump",
            Pass::DuplicateImportElimination => "duplicate-import-elimination",
            Pass::DuplicateFunctionElimination => "duplicate-function-elimination",
            Pass::EmitTargetFeatures => "emit-target-features",
            Pass::EncloseWorld => "enclose-world",
            Pass::ExtractFunction => "extract-function",
            Pass::ExtractFunctionIndex => "extract-function-index",
            Pass::Flatten => "flatten",
            Pass::FpCastEmu => "fpcast-emu",
            Pass::FuncMetrics => "func-metrics",
            Pass::GenerateDyncalls => "generate-dyncalls",
            Pass::GenerateI64Dyncalls => "generate-i64-dyncalls",
            Pass::GenerateGlobalEffects => "generate-global-effects",
            Pass::GlobalRefining => "global-refining",
            Pass::Gsi => "gsi",
            Pass::GsiDescCast => "gsi-desc-cast",
            Pass::Gto => "gto",
            Pass::Gufa => "gufa",
            Pass::GufaCastAll => "gufa-cast-all",
            Pass::GufaOptimizing => "gufa-optimizing",
            Pass::OptimizeJ2cl => "optimize-j2cl",
            Pass::MergeJ2clItables => "merge-j2cl-itables",
            Pass::TypeRefining => "type-refining",
            Pass::TypeRefiningGufa => "type-refining-gufa",
            Pass::Heap2Local => "heap2local",
            Pass::HeapStoreOptimization => "heap-store-optimization",
            Pass::InlineMain => "inline-main",
            Pass::Inlining => "inlining",
            Pass::InliningOptimizing => "inlining-optimizing",
            Pass::IntrinsicLowering => "intrinsic-lowering",
            Pass::LegalizeJsInterface => "legalize-js-interface",
            Pass::LegalizeAndPruneJsInterface => "legalize-and-prune-js-interface",
            Pass::LocalCse => "local-cse",
            Pass::LocalSubtyping => "local-subtyping",
            Pass::LogExecution => "log-execution",
            Pass::I64ToI32Lowering => "i64-to-i32-lowering",
            Pass::TraceCalls => "trace-calls",
            Pass::InstrumentBranchHints => "instrument-branch-hints",
            Pass::InstrumentLocals => "instrument-locals",
            Pass::InstrumentMemory => "instrument-memory",
            Pass::Licm => "licm",
            Pass::LimitSegments => "limit-segments",
            Pass::MakeSharedObjects => "make-shared-objects",
            Pass::MarkJsCalled => "mark-js-called",
            Pass::Memory64Lowering => "memory64-lowering",
            Pass::Table64Lowering => "table64-lowering",
            Pass::LlvmMemoryCopyFillLowering => "llvm-memory-copy-fill-lowering",
            Pass::MemoryPacking => "memory-packing",
            Pass::MergeBlocks => "merge-blocks",
            Pass::MergeSimilarFunctions => "merge-similar-functions",
            Pass::MergeLocals => "merge-locals",
            Pass::Metrics => "metrics",
            Pass::MinifyImports => "minify-imports",
            Pass::MinifyImportsAndExports => "minify-imports-and-exports",
            Pass::MinifyImportsAndExportsAndModules => "minify-imports-and-exports-and-modules",
            Pass::MinimizeRecGroups => "minimize-rec-groups",
            Pass::Monomorphize => "monomorphize",
            Pass::MonomorphizeAlways => "monomorphize-always",
            Pass::MultiMemoryLowering => "multi-memory-lowering",
            Pass::MultiMemoryLoweringWithBoundsChecks => "multi-memory-lowering-with-bounds-checks",
            Pass::Nm => "nm",
            Pass::NameTypes => "name-types",
            Pass::NoInline => "no-inline",
            Pass::NoFullInline => "no-full-inline",
            Pass::NoPartialInline => "no-partial-inline",
            Pass::LlvmNontrappingFptointLowering => "llvm-nontrapping-fptoint-lowering",
            Pass::OnceReduction => "once-reduction",
            Pass::OptimizeAddedConstants => "optimize-added-constants",
            Pass::OptimizeAddedConstantsPropagate => "optimize-added-constants-propagate",
            Pass::OptimizeCasts => "optimize-casts",
            Pass::OptimizeInstructions => "optimize-instructions",
            Pass::Outlining => "outlining",
            Pass::PickLoadSigns => "pick-load-signs",
            Pass::Poppify => "poppify",
            Pass::PostEmscripten => "post-emscripten",
            Pass::OptimizeForJs => "optimize-for-js",
            Pass::Precompute => "precompute",
            Pass::PrecomputePropagate => "precompute-propagate",
            Pass::Print => "print",
            Pass::PrintMinified => "print-minified",
            Pass::PrintFeatures => "print-features",
            Pass::PrintFull => "print-full",
            Pass::PrintBoundary => "print-boundary",
            Pass::PrintCallGraph => "print-call-graph",
            Pass::PrintFunctionMap => "print-function-map",
            Pass::Symbolmap => "symbolmap",
            Pass::PropagateGlobalsGlobally => "propagate-globals-globally",
            Pass::RemoveNonJsOps => "remove-non-js-ops",
            Pass::RemoveRelaxedSimd => "remove-relaxed-simd",
            Pass::RemoveExports => "remove-exports",
            Pass::RemoveImports => "remove-imports",
            Pass::RemoveMemoryInit => "remove-memory-init",
            Pass::RemoveMemory => "remove-memory",
            Pass::RemoveUnusedBrs => "remove-unused-brs",
            Pass::RemoveUnusedModuleElements => "remove-unused-module-elements",
            Pass::RemoveUnusedNonfunctionModuleElements => "remove-unused-nonfunction-module-elements",
            Pass::RemoveUnusedNames => "remove-unused-names",
            Pass::RemoveUnusedTypes => "remove-unused-types",
            Pass::ReorderFunctionsByName => "reorder-functions-by-name",
            Pass::ReorderFunctions => "reorder-functions",
            Pass::ReorderGlobals => "reorder-globals",
            Pass::RecorderLocals => "reorder-locals",
            Pass::ReorderTypes => "reorder-types",
            Pass::Rereloop => "rereloop",
            Pass::Rse => "rse",
            Pass::Roundtrip => "roundtrip",
            Pass::SafeHeap => "safe-heap",
            Pass::SetGlobals => "set-globals",
            Pass::SeparateDataSegments => "separate-data-segments",
            Pass::SignaturePruning => "signature-pruning",
            Pass::SignatureRefining => "signature-refining",
            Pass::SignextLowering => "signext-lowering",
            Pass::SimplifyGlobals => "simplify-globals",
            Pass::SimplifyGlobalsOptimizing => "simplify-globals-optimizing",
            Pass::SimplifyLocals => "simplify-locals",
            Pass::SimplifyLocalsNonesting => "simplify-locals-nonesting",
            Pass::SimplifyLocalsNotee => "simplify-locals-notee",
            Pass::SimplifyLocalsNostructure => "simplify-locals-nostructure",
            Pass::SimplifyLocalsNoteeNostructure => "simplify-locals-notee-nostructure",
            Pass::Souperify => "souperify",
            Pass::SouperifySingleUse => "souperify-single-use",
            Pass::SpillPointers => "spill-pointers",
            Pass::StubUnsupportedJs => "stub-unsupported-js",
            Pass::Ssa => "ssa",
            Pass::SsaNomerge => "ssa-nomerge",
            Pass::StringGathering => "string-gathering",
            Pass::StringLifting => "string-lifting",
            Pass::StringLowering => "string-lowering",
            Pass::StringLoweringMagicImports => "string-lowering-magic-imports",
            Pass::StringLoweringMagicImportsAssert => "string-lowering-magic-imports-assert",
            Pass::Strip => "strip",
            Pass::StackCheck => "stack-check",
            Pass::StripDebug => "strip-debug",
            Pass::StripDwarf => "strip-dwarf",
            Pass::StripProducers => "strip-producers",
            Pass::StripEh => "strip-eh",
            Pass::StripTargetFeatuers => "strip-target-features",
            Pass::StripToolchainAnnotations => "strip-toolchain-annotations",
            Pass::TranslateToNewEh => "translate-to-new-eh",
            Pass::TranslateToExnref => "translate-to-exnref",
            Pass::TrapModeClamp => "trap-mode-clamp",
            Pass::TrapModeJs => "trap-mode-js",
            Pass::TupleOptimization => "tuple-optimization",
            Pass::TypeFinalizing => "type-finalizing",
            Pass::TypeMerging => "type-merging",
            Pass::TypeSsa => "type-ssa",
            Pass::TypeUnfinalizing => "type-unfinalizing",
            Pass::Unsubtyping => "unsubtyping",
            Pass::Untee => "untee",
            Pass::Vacuum => "vacuum",
        }
    }
}

/// The pass that Binaryen's command line calls `name`, if there is one.
pub open spec fn pass_named(name: Seq<char>) -> Option<Pass> {
    if name == "alignment-lowering"@ {
        Some(Pass::AlignmentLowering)
    } else if name == "asyncify"@ {
        Some(Pass::Asyncify)
    } else if name == "avoid-reinterprets"@ {
        Some(Pass::AvoidReinterprets)
    } else if name == "dae"@ {
        Some(Pass::Dae)
    } else if name == "dae-optimizing"@ {
        Some(Pass::DaeOptimizing)
    } else if name == "dae2"@ {
        Some(Pass::Dae2)
    } else if name == "abstract-type-refining"@ {
        Some(Pass::AbstractTypeRefining)
    } else if name == "coalesce-locals"@ {
        Some(Pass::CoalesceLocals)
    } else if name == "coalesce-locals-learning"@ {
        Some(Pass::CoalesceLocalsLearning)
    } else if name == "code-pushing"@ {
        Some(Pass::CodePushing)
    } else if name == "code-folding"@ {
        Some(Pass::CodeFolding)
    } else if name == "const-hoisting"@ {
        Some(Pass::ConstHoisting)
    } else if name == "cfp"@ {
        Some(Pass::Cfp)
    } else if name == "cfp-reftest"@ {
        Some(Pass::CfpReftest)
    } else if name == "constraint-analysis"@ {
        Some(Pass::ConstraintAnalysis)
    } else if name == "dce"@ {
        Some(Pass::Dce)
    } else if name == "dealign"@ {
        Some(Pass::Dealign)
    } else if name == "propagate-debug-locs"@ {
        Some(Pass::PropagateDebugLocs)
    } else if name == "denan"@ {
        Some(Pass::DeNan)
    } else if name == "directize"@ {
        Some(Pass::Directize)
    } else if name == "discard-global-effects"@ {
        Some(Pass::DiscardGlobalEffects)
    } else if name == "dfo"@ {
        Some(Pass::Dfo)
    } else if name == "dwarfdump"@ {
        Some(Pass::DwarfDump)
    } else if name == "duplicate-import-elimination"@ {
        Some(Pass::DuplicateImportElimination)
    } else if name == "duplicate-function-elimination"@ {
        Some(Pass::DuplicateFunctionElimination)
    } else if name == "emit-target-features"@ {
        Some(Pass::EmitTargetFeatures)
    } else if name == "enclose-world"@ {
        Some(Pass::EncloseWorld)
    } else if name == "extract-function"@ {
        Some(Pass::ExtractFunction)
    } else if name == "extract-function-index"@ {
        Some(Pass::ExtractFunctionIndex)
    } else if name == "flatten"@ {
        Some(Pass::Flatten)
    } else if name == "fpcast-emu"@ {
        Some(Pass::FpCastEmu)
    } else if name == "func-metrics"@ {
        Some(Pass::FuncMetrics)
    } else if name == "generate-dyncalls"@ {
        Some(Pass::GenerateDyncalls)
    } else if name == "generate-i64-dyncalls"@ {
        Some(Pass::GenerateI64Dyncalls)
    } else if name == "generate-global-effects"@ {
        Some(Pass::GenerateGlobalEffects)
    } else if name == "global-refining"@ {
        Some(Pass::GlobalRefining)
    } else if name == "gsi"@ {
        Some(Pass::Gsi)
    } else if name == "gsi-desc-cast"@ {
        Some(Pass::GsiDescCast)
    } else if name == "gto"@ {
        Some(Pass::Gto)
    } else if name == "gufa"@ {
        Some(Pass::Gufa)
    } else if name == "gufa-cast-all"@ {
        Some(Pass::GufaCastAll)
    } else if name == "gufa-optimizing"@ {
        Some(Pass::GufaOptimizing)
    } else if name == "optimize-j2cl"@ {
        Some(Pass::OptimizeJ2cl)
    } else if name == "merge-j2cl-itables"@ {
        Some(Pass::MergeJ2clItables)
    } else if name == "type-refining"@ {
        Some(Pass::TypeRefining)
    } else if name == "type-refining-gufa"@ {
        Some(Pass::TypeRefiningGufa)
    } else if name == "heap2local"@ {
        Some(Pass::Heap2Local)
    } else if name == "heap-store-optimization"@ {
        Some(Pass::HeapStoreOptimization)
    } else if name == "inline-main"@ {
        Some(Pass::InlineMain)
    } else if name == "inlining"@ {
        Some(Pass::Inlining)
    } else if name == "inlining-optimizing"@ {
        Some(Pass::InliningOptimizing)
    } else if name == "intrinsic-lowering"@ {
        Some(Pass::IntrinsicLowering)
    } else if name == "legalize-js-interface"@ {
        Some(Pass::LegalizeJsInterface)
    } else if name == "legalize-and-prune-js-interface"@ {
        Some(Pass::LegalizeAndPruneJsInterface)
    } else if name == "local-cse"@ {
        Some(Pass::LocalCse)
    } else if name == "local-subtyping"@ {
        Some(Pass::LocalSubtyping)
    } else if name == "log-execution"@ {
        Some(Pass::LogExecution)
    } else if name == "i64-to-i32-lowering"@ {
        Some(Pass::I64ToI32Lowering)
    } else if name == "trace-calls"@ {
        Some(Pass::TraceCalls)
    } else if name == "instrument-branch-hints"@ {
        Some(Pass::InstrumentBranchHints)
    } else if name == "instrument-locals"@ {
        Some(Pass::InstrumentLocals)
    } else if name == "instrument-memory"@ {
        Some(Pass::InstrumentMemory)
    } else if name == "licm"@ {
        Some(Pass::Licm)
    } else if name == "limit-segments"@ {
        Some(Pass::LimitSegments)
    } else if name == "make-shared-objects"@ {
        Some(Pass::MakeSharedObjects)
    } else if name == "mark-js-called"@ {
        Some(Pass::MarkJsCalled)
    } else if name == "memory64-lowering"@ {
        Some(Pass::Memory64Lowering)
    } else if name == "table64-lowering"@ {
        Some(Pass::Table64Lowering)
    } else if name == "llvm-memory-copy-fill-lowering"@ {
        Some(Pass::LlvmMemoryCopyFillLowering)
    } else if name == "memory-packing"@ {
        Some(Pass::MemoryPacking)
    } else if name == "merge-blocks"@ {
        Some(Pass::MergeBlocks)
    } else if name == "merge-similar-functions"@ {
        Some(Pass::MergeSimilarFunctions)
    } else if name == "merge-locals"@ {
        Some(Pass::MergeLocals)
    } else if name == "metrics"@ {
        Some(Pass::Metrics)
    } else if name == "minify-imports"@ {
        Some(Pass::MinifyImports)
    } else if name == "minify-imports-and-exports"@ {
        Some(Pass::MinifyImportsAndExports)
    } else if name == "minify-imports-and-exports-and-modules"@ {
        Some(Pass::MinifyImportsAndExportsAndModules)
    } else if name == "minimize-rec-groups"@ {
        Some(Pass::MinimizeRecGroups)
    } else if name == "monomorphize"@ {
        Some(Pass::Monomorphize)
    } else if name == "monomorphize-always"@ {
        Some(Pass::MonomorphizeAlways)
    } else if name == "multi-memory-lowering"@ {
        Some(Pass::MultiMemoryLowering)
    } else if name == "multi-memory-lowering-with-bounds-checks"@ {
        Some(Pass::MultiMemoryLoweringWithBoundsChecks)
    } else if name == "nm"@ {
        Some(Pass::Nm)
    } else if name == "name-types"@ {
        Some(Pass::NameTypes)
    } else if name == "no-inline"@ {
        Some(Pass::NoInline)
    } else if name == "no-full-inline"@ {
        Some(Pass::NoFullInline)
    } else if name == "no-partial-inline"@ {
        Some(Pass::NoPartialInline)
    } else if name == "llvm-nontrapping-fptoint-lowering"@ {
        Some(Pass::LlvmNontrappingFptointLowering)
    } else if name == "once-reduction"@ {
        Some(Pass::OnceReduction)
    } else if name == "optimize-added-constants"@ {
        Some(Pass::OptimizeAddedConstants)
    } else if name == "optimize-added-constants-propagate"@ {
        Some(Pass::OptimizeAddedConstantsPropagate)
    } else if name == "optimize-casts"@ {
        Some(Pass::OptimizeCasts)
    } else if name == "optimize-instructions"@ {
        Some(Pass::OptimizeInstructions)
    } else if name == "outlining"@ {
        Some(Pass::Outlining)
    } else if name == "pick-load-signs"@ {
        Some(Pass::PickLoadSigns)
    } else if name == "poppify"@ {
        Some(Pass::Poppify)
    } else if name == "post-emscripten"@ {
        Some(Pass::PostEmscripten)
    } else if name == "optimize-for-js"@ {
        Some(Pass::OptimizeForJs)
    } else if name == "precompute"@ {
        Some(Pass::Precompute)
    } else if name == "precompute-propagate"@ {
        Some(Pass::PrecomputePropagate)
    } else if name == "print"@ {
        Some(Pass::Print)
    } else if name == "print-minified"@ {
        Some(Pass::PrintMinified)
    } else if name == "print-features"@ {
        Some(Pass::PrintFeatures)
    } else if name == "print-full"@ {
        Some(Pass::PrintFull)
    } else if name == "print-boundary"@ {
        Some(Pass::PrintBoundary)
    } else if name == "print-call-graph"@ {
        Some(Pass::PrintCallGraph)
    } else if name == "print-function-map"@ {
        Some(Pass::PrintFunctionMap)
    } else if name == "symbolmap"@ {
        Some(Pass::Symbolmap)
    } else if name == "propagate-globals-globally"@ {
        Some(Pass::PropagateGlobalsGlobally)
    } else if name == "remove-non-js-ops"@ {
        Some(Pass::RemoveNonJsOps)
    } else if name == "remove-relaxed-simd"@ {
        Some(Pass::RemoveRelaxedSimd)
    } else if name == "remove-exports"@ {
        Some(Pass::RemoveExports)
    } else if name == "remove-imports"@ {
        Some(Pass::RemoveImports)
    } else if name == "remove-memory-init"@ {
        Some(Pass::RemoveMemoryInit)
    } else if name == "remove-memory"@ {
        Some(Pass::RemoveMemory)
    } else if name == "remove-unused-brs"@ {
        Some(Pass::RemoveUnusedBrs)
    } else if name == "remove-unused-module-elements"@ {
        Some(Pass::RemoveUnusedModuleElements)
    } else if name == "remove-unused-nonfunction-module-elements"@ {
        Some(Pass::RemoveUnusedNonfunctionModuleElements)
    } else if name == "remove-unused-names"@ {
        Some(Pass::RemoveUnusedNames)
    } else if name == "remove-unused-types"@ {
        Some(Pass::RemoveUnusedTypes)
    } else if name == "reorder-functions-by-name"@ {
        Some(Pass::ReorderFunctionsByName)
    } else if name == "reorder-functions"@ {
        Some(Pass::ReorderFunctions)
    } else if name == "reorder-globals"@ {
        Some(Pass::ReorderGlobals)
    } else if name == "reorder-locals"@ {
        Some(Pass::RecorderLocals)
    } else if name == "reorder-types"@ {
        Some(Pass::ReorderTypes)
    } else if name == "rereloop"@ {
        Some(Pass::Rereloop)
    } else if name == "rse"@ {
        Some(Pass::Rse)
    } else if name == "roundtrip"@ {
        Some(Pass::Roundtrip)
    } else if name == "safe-heap"@ {
        Some(Pass::SafeHeap)
    } else if name == "set-globals"@ {
        Some(Pass::SetGlobals)
    } else if name == "separate-data-segments"@ {
        Some(Pass::SeparateDataSegments)
    } else if name == "signature-pruning"@ {
        Some(Pass::SignaturePruning)
    } else if name == "signature-refining"@ {
        Some(Pass::SignatureRefining)
    } else if name == "signext-lowering"@ {
        Some(Pass::SignextLowering)
    } else if name == "simplify-globals"@ {
        Some(Pass::SimplifyGlobals)
    } else if name == "simplify-globals-optimizing"@ {
        Some(Pass::SimplifyGlobalsOptimizing)
    } else if name == "simplify-locals"@ {
        Some(Pass::SimplifyLocals)
    } else if name == "simplify-locals-nonesting"@ {
        Some(Pass::SimplifyLocalsNonesting)
    } else if name == "simplify-locals-notee"@ {
        Some(Pass::SimplifyLocalsNotee)
    } else if name == "simplify-locals-nostructure"@ {
        Some(Pass::SimplifyLocalsNostructure)
    } else if name == "simplify-locals-notee-nostructure"@ {
        Some(Pass::SimplifyLocalsNoteeNostructure)
    } else if name == "souperify"@ {
        Some(Pass::Souperify)
    } else if name == "souperify-single-use"@ {
        Some(Pass::SouperifySingleUse)
    } else if name == "spill-pointers"@ {
        Some(Pass::SpillPointers)
    } else if name == "stub-unsupported-js"@ {
        Some(Pass::StubUnsupportedJs)
    } else if name == "ssa"@ {
        Some(Pass::Ssa)
    } else if name == "ssa-nomerge"@ {
        Some(Pass::SsaNomerge)
    } else if name == "string-gathering"@ {
        Some(Pass::StringGathering)
    } else if name == "string-lifting"@ {
        Some(Pass::StringLifting)
    } else if name == "string-lowering"@ {
        Some(Pass::StringLowering)
    } else if name == "string-lowering-magic-imports"@ {
        Some(Pass::StringLoweringMagicImports)
    } else if name == "string-lowering-magic-imports-assert"@ {
        Some(Pass::StringLoweringMagicImportsAssert)
    } else if name == "strip"@ {
        Some(Pass::Strip)
    } else if name == "stack-check"@ {
        Some(Pass::StackCheck)
    } else if name == "strip-debug"@ {
        Some(Pass::StripDebug)
    } else if name == "strip-dwarf"@ {
        Some(Pass::StripDwarf)
    } else if name == "strip-producers"@ {
        Some(Pass::StripProducers)
    } else if name == "strip-eh"@ {
        Some(Pass::StripEh)
    } else if name == "strip-target-features"@ {
        Some(Pass::StripTargetFeatuers)
    } else if name == "strip-toolchain-annotations"@ {
        Some(Pass::StripToolchainAnnotations)
    } else if name == "translate-to-new-eh"@ {
        Some(Pass::TranslateToNewEh)
    } else if name == "translate-to-exnref"@ {
        Some(Pass::TranslateToExnref)
    } else if name == "trap-mode-clamp"@ {
        Some(Pass::TrapModeClamp)
    } else if name == "trap-mode-js"@ {
        Some(Pass::TrapModeJs)
    } else if name == "tuple-optimization"@ {
        Some(Pass::TupleOptimization)
    } else if name == "type-finalizing"@ {
        Some(Pass::TypeFinalizing)
    } else if name == "type-merging"@ {
        Some(Pass::TypeMerging)
    } else if name == "type-ssa"@ {
        Some(Pass::TypeSsa)
    } else if name == "type-unfinalizing"@ {
        Some(Pass::TypeUnfinalizing)
    } else if name == "unsubtyping"@ {
        Some(Pass::Unsubtyping)
    } else if name == "untee"@ {
        Some(Pass::Untee)
    } else if name == "vacuum"@ {
        Some(Pass::Vacuum)
    } else {
        None
    }
}

/// Each pass is the one its name names: no two passes share a name.
pub proof fn lemma_pass_named_name(pass: Pass)
    ensures
        pass_named(pass.spec_name()) == Some(pass),
{
    broadcast use vstd::string::group_string_axioms;

    // For each name: its length, and the characters that tell it from the
    // other names of that length.
    reveal_strlit("alignment-lowering");
    assert("alignment-lowering"@.len() == 18 && "alignment-lowering"@[1] == 'l');
    reveal_strlit("asyncify");
    assert("asyncify"@.len() == 8 && "asyncify"@[0] == 'a');
    reveal_strlit("avoid-reinterprets");
    assert("avoid-reinterprets"@.len() == 18 && "avoid-reinterprets"@[1] == 'v');
    reveal_strlit("dae");
    assert("dae"@.len() == 3 && "dae"@[1] == 'a');
    reveal_strlit("dae-optimizing");
    assert("dae-optimizing"@.len() == 14 && "dae-optimizing"@[0] == 'd');
    reveal_strlit("dae2");
    assert("dae2"@.len() == 4 && "dae2"@[0] == 'd');
    reveal_strlit("abstract-type-refining");
    assert("abstract-type-refining"@.len() == 22 && "abstract-type-refining"@[0] == 'a');
    reveal_strlit("coalesce-locals");
    assert("coalesce-locals"@.len() == 15 && "coalesce-locals"@[0] == 'c');
    reveal_strlit("coalesce-locals-learning");
    assert("coalesce-locals-learning"@.len() == 24 && "coalesce-locals-learning"@[0] == 'c');
    reveal_strlit("code-pushing");
    assert("code-pushing"@.len() == 12 && "code-pushing"@[5] == 'p');
    reveal_strlit("code-folding");
    assert("code-folding"@.len() == 12 && "code-folding"@[5] == 'f');
    reveal_strlit("const-hoisting");
    assert("const-hoisting"@.len() == 14 && "const-hoisting"@[0] == 'c');
    reveal_strlit("cfp");
    assert("cfp"@.len() == 3 && "cfp"@[0] == 'c');
    reveal_strlit("cfp-reftest");
    assert("cfp-reftest"@.len() == 11 && "cfp-reftest"@[0] == 'c');
    reveal_strlit("constraint-analysis");
    assert("constraint-analysis"@.len() == 19 && "constraint-analysis"@[0] == 'c');
    reveal_strlit("dce");
    assert("dce"@.len() == 3 && "dce"@[1] == 'c');
    reveal_strlit("dealign");
    assert("dealign"@.len() == 7 && "dealign"@[0] == 'd');
    reveal_strlit("propagate-debug-locs");
    assert("propagate-debug-locs"@.len() == 20 && "propagate-debug-locs"@[2] == 'o');
    reveal_strlit("denan");
    assert("denan"@.len() == 5 && "denan"@[0] == 'd');
    reveal_strlit("directize");
    assert("directize"@.len() == 9 && "directize"@[1] == 'i');
    reveal_strlit("discard-global-effects");
    assert("discard-global-effects"@.len() == 22 && "discard-global-effects"@[0] == 'd');
    reveal_strlit("dfo");
    assert("dfo"@.len() == 3 && "dfo"@[0] == 'd' && "dfo"@[1] == 'f');
    reveal_strlit("dwarfdump");
    assert("dwarfdump"@.len() == 9 && "dwarfdump"@[1] == 'w');
    reveal_strlit("duplicate-import-elimination");
    assert("duplicate-import-elimination"@.len() == 28);
    reveal_strlit("duplicate-function-elimination");
    assert("duplicate-function-elimination"@.len() == 30 && "duplicate-function-elimination"@[0] == 'd');
    reveal_strlit("emit-target-features");
    assert("emit-target-features"@.len() == 20 && "emit-target-features"@[0] == 'e');
    reveal_strlit("enclose-world");
    assert("enclose-world"@.len() == 13 && "enclose-world"@[0] == 'e');
    reveal_strlit("extract-function");
    assert("extract-function"@.len() == 16 && "extract-function"@[0] == 'e');
    reveal_strlit("extract-function-index");
    assert("extract-function-index"@.len() == 22 && "extract-function-index"@[0] == 'e');
    reveal_strlit("flatten");
    assert("flatten"@.len() == 7 && "flatten"@[0] == 'f');
    reveal_strlit("fpcast-emu");
    assert("fpcast-emu"@.len() == 10 && "fpcast-emu"@[0] == 'f');
    reveal_strlit("func-metrics");
    assert("func-metrics"@.len() == 12 && "func-metrics"@[0] == 'f');
    reveal_strlit("generate-dyncalls");
    assert("generate-dyncalls"@.len() == 17 && "generate-dyncalls"@[0] == 'g');
    reveal_strlit("generate-i64-dyncalls");
    assert("generate-i64-dyncalls"@.len() == 21 && "generate-i64-dyncalls"@[0] == 'g');
    reveal_strlit("generate-global-effects");
    assert("generate-global-effects"@.len() == 23 && "generate-global-effects"@[0] == 'g');
    reveal_strlit("global-refining");
    assert("global-refining"@.len() == 15 && "global-refining"@[1] == 'l');
    reveal_strlit("gsi");
    assert("gsi"@.len() == 3 && "gsi"@[2] == 'i');
    reveal_strlit("gsi-desc-cast");
    assert("gsi-desc-cast"@.len() == 13 && "gsi-desc-cast"@[1] == 's');
    reveal_strlit("gto");
    assert("gto"@.len() == 3 && "gto"@[1] == 't');
    reveal_strlit("gufa");
    assert("gufa"@.len() == 4 && "gufa"@[0] == 'g');
    reveal_strlit("gufa-cast-all");
    assert("gufa-cast-all"@.len() == 13 && "gufa-cast-all"@[1] == 'u');
    reveal_strlit("gufa-optimizing");
    assert("gufa-optimizing"@.len() == 15 && "gufa-optimizing"@[1] == 'u');
    reveal_strlit("optimize-j2cl");
    assert("optimize-j2cl"@.len() == 13 && "optimize-j2cl"@[0] == 'o');
    reveal_strlit("merge-j2cl-itables");
    assert("merge-j2cl-itables"@.len() == 18 && "merge-j2cl-itables"@[0] == 'm');
    reveal_strlit("type-refining");
    assert("type-refining"@.len() == 13 && "type-refining"@[0] == 't');
    reveal_strlit("type-refining-gufa");
    assert("type-refining-gufa"@.len() == 18 && "type-refining-gufa"@[1] == 'y');
    reveal_strlit("heap2local");
    assert("heap2local"@.len() == 10 && "heap2local"@[0] == 'h');
    reveal_strlit("heap-store-optimization");
    assert("heap-store-optimization"@.len() == 23 && "heap-store-optimization"@[0] == 'h');
    reveal_strlit("inline-main");
    assert("inline-main"@.len() == 11 && "inline-main"@[0] == 'i');
    reveal_strlit("inlining");
    assert("inlining"@.len() == 8 && "inlining"@[0] == 'i');
    reveal_strlit("inlining-optimizing");
    assert("inlining-optimizing"@.len() == 19 && "inlining-optimizing"@[1] == 'n');
    reveal_strlit("intrinsic-lowering");
    assert("intrinsic-lowering"@.len() == 18 && "intrinsic-lowering"@[0] == 'i');
    reveal_strlit("legalize-js-interface");
    assert("legalize-js-interface"@.len() == 21 && "legalize-js-interface"@[0] == 'l');
    reveal_strlit("legalize-and-prune-js-interface");
    assert("legalize-and-prune-js-interface"@.len() == 31);
    reveal_strlit("local-cse");
    assert("local-cse"@.len() == 9 && "local-cse"@[0] == 'l');
    reveal_strlit("local-subtyping");
    assert("local-subtyping"@.len() == 15 && "local-subtyping"@[0] == 'l');
    reveal_strlit("log-execution");
    assert("log-execution"@.len() == 13 && "log-execution"@[0] == 'l');
    reveal_strlit("i64-to-i32-lowering");
    assert("i64-to-i32-lowering"@.len() == 19 && "i64-to-i32-lowering"@[1] == '6');
    reveal_strlit("trace-calls");
    assert("trace-calls"@.len() == 11 && "trace-calls"@[0] == 't');
    reveal_strlit("instrument-branch-hints");
    assert("instrument-branch-hints"@.len() == 23 && "instrument-branch-hints"@[0] == 'i');
    reveal_strlit("instrument-locals");
    assert("instrument-locals"@.len() == 17 && "instrument-locals"@[12] == 'o');
    reveal_strlit("instrument-memory");
    assert("instrument-memory"@.len() == 17 && "instrument-memory"@[11] == 'm');
    reveal_strlit("licm");
    assert("licm"@.len() == 4 && "licm"@[0] == 'l');
    reveal_strlit("limit-segments");
    assert("limit-segments"@.len() == 14 && "limit-segments"@[0] == 'l');
    reveal_strlit("make-shared-objects");
    assert("make-shared-objects"@.len() == 19 && "make-shared-objects"@[1] == 'a');
    reveal_strlit("mark-js-called");
    assert("mark-js-called"@.len() == 14 && "mark-js-called"@[3] == 'k');
    reveal_strlit("memory64-lowering");
    assert("memory64-lowering"@.len() == 17 && "memory64-lowering"@[0] == 'm');
    reveal_strlit("table64-lowering");
    assert("table64-lowering"@.len() == 16 && "table64-lowering"@[0] == 't');
    reveal_strlit("llvm-memory-copy-fill-lowering");
    assert("llvm-memory-copy-fill-lowering"@.len() == 30 && "llvm-memory-copy-fill-lowering"@[0] == 'l');
    reveal_strlit("memory-packing");
    assert("memory-packing"@.len() == 14 && "memory-packing"@[4] == 'r');
    reveal_strlit("merge-blocks");
    assert("merge-blocks"@.len() == 12 && "merge-blocks"@[6] == 'b');
    reveal_strlit("merge-similar-functions");
    assert("merge-similar-functions"@.len() == 23 && "merge-similar-functions"@[0] == 'm');
    reveal_strlit("merge-locals");
    assert("merge-locals"@.len() == 12 && "merge-locals"@[6] == 'l');
    reveal_strlit("metrics");
    assert("metrics"@.len() == 7 && "metrics"@[0] == 'm');
    reveal_strlit("minify-imports");
    assert("minify-imports"@.len() == 14 && "minify-imports"@[4] == 'f');
    reveal_strlit("minify-imports-and-exports");
    assert("minify-imports-and-exports"@.len() == 26 && "minify-imports-and-exports"@[0] == 'm');
    reveal_strlit("minify-imports-and-exports-and-modules");
    assert("minify-imports-and-exports-and-modules"@.len() == 38);
    reveal_strlit("minimize-rec-groups");
    assert("minimize-rec-groups"@.len() == 19 && "minimize-rec-groups"@[1] == 'i');
    reveal_strlit("monomorphize");
    assert("monomorphize"@.len() == 12 && "monomorphize"@[3] == 'o');
    reveal_strlit("monomorphize-always");
    assert("monomorphize-always"@.len() == 19 && "monomorphize-always"@[6] == 'r');
    reveal_strlit("multi-memory-lowering");
    assert("multi-memory-lowering"@.len() == 21 && "multi-memory-lowering"@[0] == 'm');
    reveal_strlit("multi-memory-lowering-with-bounds-checks");
    assert("multi-memory-lowering-with-bounds-checks"@.len() == 40);
    reveal_strlit("nm");
    assert("nm"@.len() == 2);
    reveal_strlit("name-types");
    assert("name-types"@.len() == 10 && "name-types"@[0] == 'n');
    reveal_strlit("no-inline");
    assert("no-inline"@.len() == 9 && "no-inline"@[0] == 'n');
    reveal_strlit("no-full-inline");
    assert("no-full-inline"@.len() == 14 && "no-full-inline"@[0] == 'n');
    reveal_strlit("no-partial-inline");
    assert("no-partial-inline"@.len() == 17 && "no-partial-inline"@[0] == 'n');
    reveal_strlit("llvm-nontrapping-fptoint-lowering");
    assert("llvm-nontrapping-fptoint-lowering"@.len() == 33 && "llvm-nontrapping-fptoint-lowering"@[0] == 'l');
    reveal_strlit("once-reduction");
    assert("once-reduction"@.len() == 14 && "once-reduction"@[1] == 'n');
    reveal_strlit("optimize-added-constants");
    assert("optimize-added-constants"@.len() == 24 && "optimize-added-constants"@[0] == 'o');
    reveal_strlit("optimize-added-constants-propagate");
    assert("optimize-added-constants-propagate"@.len() == 34);
    reveal_strlit("optimize-casts");
    assert("optimize-casts"@.len() == 14 && "optimize-casts"@[2] == 't');
    reveal_strlit("optimize-instructions");
    assert("optimize-instructions"@.len() == 21 && "optimize-instructions"@[0] == 'o');
    reveal_strlit("outlining");
    assert("outlining"@.len() == 9 && "outlining"@[0] == 'o');
    reveal_strlit("pick-load-signs");
    assert("pick-load-signs"@.len() == 15 && "pick-load-signs"@[3] == 'k');
    reveal_strlit("poppify");
    assert("poppify"@.len() == 7 && "poppify"@[0] == 'p');
    reveal_strlit("post-emscripten");
    assert("post-emscripten"@.len() == 15 && "post-emscripten"@[2] == 's');
    reveal_strlit("optimize-for-js");
    assert("optimize-for-js"@.len() == 15 && "optimize-for-js"@[0] == 'o');
    reveal_strlit("precompute");
    assert("precompute"@.len() == 10 && "precompute"@[2] == 'e');
    reveal_strlit("precompute-propagate");
    assert("precompute-propagate"@.len() == 20 && "precompute-propagate"@[2] == 'e');
    reveal_strlit("print");
    assert("print"@.len() == 5 && "print"@[0] == 'p');
    reveal_strlit("print-minified");
    assert("print-minified"@.len() == 14 && "print-minified"@[6] == 'm');
    reveal_strlit("print-features");
    assert("print-features"@.len() == 14 && "print-features"@[6] == 'f');
    reveal_strlit("print-full");
    assert("print-full"@.len() == 10 && "print-full"@[2] == 'i');
    reveal_strlit("print-boundary");
    assert("print-boundary"@.len() == 14 && "print-boundary"@[6] == 'b');
    reveal_strlit("print-call-graph");
    assert("print-call-graph"@.len() == 16 && "print-call-graph"@[0] == 'p');
    reveal_strlit("print-function-map");
    assert("print-function-map"@.len() == 18 && "print-function-map"@[0] == 'p');
    reveal_strlit("symbolmap");
    assert("symbolmap"@.len() == 9 && "symbolmap"@[1] == 'y');
    reveal_strlit("propagate-globals-globally");
    assert("propagate-globals-globally"@.len() == 26 && "propagate-globals-globally"@[0] == 'p');
    reveal_strlit("remove-non-js-ops");
    assert("remove-non-js-ops"@.len() == 17 && "remove-non-js-ops"@[7] == 'n');
    reveal_strlit("remove-relaxed-simd");
    assert("remove-relaxed-simd"@.len() == 19 && "remove-relaxed-simd"@[7] == 'r');
    reveal_strlit("remove-exports");
    assert("remove-exports"@.len() == 14 && "remove-exports"@[8] == 'x');
    reveal_strlit("remove-imports");
    assert("remove-imports"@.len() == 14 && "remove-imports"@[4] == 'v' && "remove-imports"@[7] == 'i');
    reveal_strlit("remove-memory-init");
    assert("remove-memory-init"@.len() == 18 && "remove-memory-init"@[0] == 'r');
    reveal_strlit("remove-memory");
    assert("remove-memory"@.len() == 13 && "remove-memory"@[2] == 'm');
    reveal_strlit("remove-unused-brs");
    assert("remove-unused-brs"@.len() == 17 && "remove-unused-brs"@[7] == 'u');
    reveal_strlit("remove-unused-module-elements");
    assert("remove-unused-module-elements"@.len() == 29 && "remove-unused-module-elements"@[0] == 'r');
    reveal_strlit("remove-unused-nonfunction-module-elements");
    assert("remove-unused-nonfunction-module-elements"@.len() == 41);
    reveal_strlit("remove-unused-names");
    assert("remove-unused-names"@.len() == 19 && "remove-unused-names"@[14] == 'n');
    reveal_strlit("remove-unused-types");
    assert("remove-unused-types"@.len() == 19 && "remove-unused-types"@[14] == 't');
    reveal_strlit("reorder-functions-by-name");
    assert("reorder-functions-by-name"@.len() == 25 && "reorder-functions-by-name"@[0] == 'r');
    reveal_strlit("reorder-functions");
    assert("reorder-functions"@.len() == 17 && "reorder-functions"@[2] == 'o');
    reveal_strlit("reorder-globals");
    assert("reorder-globals"@.len() == 15 && "reorder-globals"@[0] == 'r');
    reveal_strlit("reorder-locals");
    assert("reorder-locals"@.len() == 14 && "reorder-locals"@[2] == 'o');
    reveal_strlit("reorder-types");
    assert("reorder-types"@.len() == 13 && "reorder-types"@[2] == 'o');
    reveal_strlit("rereloop");
    assert("rereloop"@.len() == 8 && "rereloop"@[0] == 'r');
    reveal_strlit("rse");
    assert("rse"@.len() == 3 && "rse"@[0] == 'r');
    reveal_strlit("roundtrip");
    assert("roundtrip"@.len() == 9 && "roundtrip"@[0] == 'r');
    reveal_strlit("safe-heap");
    assert("safe-heap"@.len() == 9 && "safe-heap"@[1] == 'a');
    reveal_strlit("set-globals");
    assert("set-globals"@.len() == 11 && "set-globals"@[1] == 'e');
    reveal_strlit("separate-data-segments");
    assert("separate-data-segments"@.len() == 22 && "separate-data-segments"@[0] == 's');
    reveal_strlit("signature-pruning");
    assert("signature-pruning"@.len() == 17 && "signature-pruning"@[0] == 's');
    reveal_strlit("signature-refining");
    assert("signature-refining"@.len() == 18 && "signature-refining"@[0] == 's');
    reveal_strlit("signext-lowering");
    assert("signext-lowering"@.len() == 16 && "signext-lowering"@[2] == 'g');
    reveal_strlit("simplify-globals");
    assert("simplify-globals"@.len() == 16 && "simplify-globals"@[2] == 'm');
    reveal_strlit("simplify-globals-optimizing");
    assert("simplify-globals-optimizing"@.len() == 27 && "simplify-globals-optimizing"@[9] == 'g');
    reveal_strlit("simplify-locals");
    assert("simplify-locals"@.len() == 15 && "simplify-locals"@[2] == 'm');
    reveal_strlit("simplify-locals-nonesting");
    assert("simplify-locals-nonesting"@.len() == 25 && "simplify-locals-nonesting"@[0] == 's');
    reveal_strlit("simplify-locals-notee");
    assert("simplify-locals-notee"@.len() == 21 && "simplify-locals-notee"@[1] == 'i');
    reveal_strlit("simplify-locals-nostructure");
    assert("simplify-locals-nostructure"@.len() == 27 && "simplify-locals-nostructure"@[10] == 'o');
    reveal_strlit("simplify-locals-notee-nostructure");
    assert("simplify-locals-notee-nostructure"@.len() == 33 && "simplify-locals-notee-nostructure"@[0] == 's');
    reveal_strlit("souperify");
    assert("souperify"@.len() == 9 && "souperify"@[3] == 'p');
    reveal_strlit("souperify-single-use");
    assert("souperify-single-use"@.len() == 20 && "souperify-single-use"@[0] == 's');
    reveal_strlit("spill-pointers");
    assert("spill-pointers"@.len() == 14 && "spill-pointers"@[3] == 'l');
    reveal_strlit("stub-unsupported-js");
    assert("stub-unsupported-js"@.len() == 19 && "stub-unsupported-js"@[0] == 's');
    reveal_strlit("ssa");
    assert("ssa"@.len() == 3 && "ssa"@[0] == 's');
    reveal_strlit("ssa-nomerge");
    assert("ssa-nomerge"@.len() == 11 && "ssa-nomerge"@[1] == 's');
    reveal_strlit("string-gathering");
    assert("string-gathering"@.len() == 16 && "string-gathering"@[1] == 't');
    reveal_strlit("string-lifting");
    assert("string-lifting"@.len() == 14 && "string-lifting"@[1] == 't');
    reveal_strlit("string-lowering");
    assert("string-lowering"@.len() == 15 && "string-lowering"@[4] == 'n');
    reveal_strlit("string-lowering-magic-imports");
    assert("string-lowering-magic-imports"@.len() == 29 && "string-lowering-magic-imports"@[0] == 's');
    reveal_strlit("string-lowering-magic-imports-assert");
    assert("string-lowering-magic-imports-assert"@.len() == 36);
    reveal_strlit("strip");
    assert("strip"@.len() == 5 && "strip"@[0] == 's');
    reveal_strlit("stack-check");
    assert("stack-check"@.len() == 11 && "stack-check"@[4] == 'k');
    reveal_strlit("strip-debug");
    assert("strip-debug"@.len() == 11 && "strip-debug"@[8] == 'b');
    reveal_strlit("strip-dwarf");
    assert("strip-dwarf"@.len() == 11 && "strip-dwarf"@[7] == 'w');
    reveal_strlit("strip-producers");
    assert("strip-producers"@.len() == 15 && "strip-producers"@[4] == 'p');
    reveal_strlit("strip-eh");
    assert("strip-eh"@.len() == 8 && "strip-eh"@[0] == 's');
    reveal_strlit("strip-target-features");
    assert("strip-target-features"@.len() == 21 && "strip-target-features"@[1] == 't');
    reveal_strlit("strip-toolchain-annotations");
    assert("strip-toolchain-annotations"@.len() == 27 && "strip-toolchain-annotations"@[1] == 't');
    reveal_strlit("translate-to-new-eh");
    assert("translate-to-new-eh"@.len() == 19 && "translate-to-new-eh"@[13] == 'n');
    reveal_strlit("translate-to-exnref");
    assert("translate-to-exnref"@.len() == 19 && "translate-to-exnref"@[13] == 'e');
    reveal_strlit("trap-mode-clamp");
    assert("trap-mode-clamp"@.len() == 15 && "trap-mode-clamp"@[1] == 'r');
    reveal_strlit("trap-mode-js");
    assert("trap-mode-js"@.len() == 12 && "trap-mode-js"@[1] == 'r');
    reveal_strlit("tuple-optimization");
    assert("tuple-optimization"@.len() == 18 && "tuple-optimization"@[1] == 'u');
    reveal_strlit("type-finalizing");
    assert("type-finalizing"@.len() == 15 && "type-finalizing"@[1] == 'y');
    reveal_strlit("type-merging");
    assert("type-merging"@.len() == 12 && "type-merging"@[1] == 'y');
    reveal_strlit("type-ssa");
    assert("type-ssa"@.len() == 8 && "type-ssa"@[0] == 't');
    reveal_strlit("type-unfinalizing");
    assert("type-unfinalizing"@.len() == 17 && "type-unfinalizing"@[0] == 't');
    reveal_strlit("unsubtyping");
    assert("unsubtyping"@.len() == 11 && "unsubtyping"@[0] == 'u');
    reveal_strlit("untee");
    assert("untee"@.len() == 5 && "untee"@[0] == 'u');
    reveal_strlit("vacuum");
    assert("vacuum"@.len() == 6);
}

/// Distinct passes have distinct names.
pub proof fn lemma_pass_names_distinct(p: Pass, q: Pass)
    requires
        p.spec_name() == q.spec_name(),
    ensures
        p == q,
{
    lemma_pass_named_name(p);
    lemma_pass_named_name(q);
}

/// How many passes there are.
pub const PASS_COUNT: usize = 172;

/// The pass at `index` in the order the passes are declared, which is the
/// order in which Binaryen registers them.
pub open spec fn pass_at_index(index: int) -> Option<Pass> {
    if index == 0 {
        Some(Pass::AlignmentLowering)
    } else if index == 1 {
        Some(Pass::Asyncify)
    } else if index == 2 {
        Some(Pass::AvoidReinterprets)
    } else if index == 3 {
        Some(Pass::Dae)
    } else if index == 4 {
        Some(Pass::DaeOptimizing)
    } else if index == 5 {
        Some(Pass::Dae2)
    } else if index == 6 {
        Some(Pass::AbstractTypeRefining)
    } else if index == 7 {
        Some(Pass::CoalesceLocals)
    } else if index == 8 {
        Some(Pass::CoalesceLocalsLearning)
    } else if index == 9 {
        Some(Pass::CodePushing)
    } else if index == 10 {
        Some(Pass::CodeFolding)
    } else if index == 11 {
        Some(Pass::ConstHoisting)
    } else if index == 12 {
        Some(Pass::Cfp)
    } else if index == 13 {
        Some(Pass::CfpReftest)
    } else if index == 14 {
        Some(Pass::ConstraintAnalysis)
    } else if index == 15 {
        Some(Pass::Dce)
    } else if index == 16 {
        Some(Pass::Dealign)
    } else if index == 17 {
        Some(Pass::PropagateDebugLocs)
    } else if index == 18 {
        Some(Pass::DeNan)
    } else if index == 19 {
        Some(Pass::Directize)
    } else if index == 20 {
        Some(Pass::DiscardGlobalEffects)
    } else if index == 21 {
        Some(Pass::Dfo)
    } else if index == 22 {
        Some(Pass::DwarfDump)
    } else if index == 23 {
        Some(Pass::DuplicateImportElimination)
    } else if index == 24 {
        Some(Pass::DuplicateFunctionElimination)
    } else if index == 25 {
        Some(Pass::EmitTargetFeatures)
    } else if index == 26 {
        Some(Pass::EncloseWorld)
    } else if index == 27 {
        Some(Pass::ExtractFunction)
    } else if index == 28 {
        Some(Pass::ExtractFunctionIndex)
    } else if index == 29 {
        Some(Pass::Flatten)
    } else if index == 30 {
        Some(Pass::FpCastEmu)
    } else if index == 31 {
        Some(Pass::FuncMetrics)
    } else if index == 32 {
        Some(Pass::GenerateDyncalls)
    } else if index == 33 {
        Some(Pass::GenerateI64Dyncalls)
    } else if index == 34 {
        Some(Pass::GenerateGlobalEffects)
    } else if index == 35 {
        Some(Pass::GlobalRefining)
    } else if index == 36 {
        Some(Pass::Gsi)
    } else if index == 37 {
        Some(Pass::GsiDescCast)
    } else if index == 38 {
        Some(Pass::Gto)
    } else if index == 39 {
        Some(Pass::Gufa)
    } else if index == 40 {
        Some(Pass::GufaCastAll)
    } else if index == 41 {
        Some(Pass::GufaOptimizing)
    } else if index == 42 {
        Some(Pass::OptimizeJ2cl)
    } else if index == 43 {
        Some(Pass::MergeJ2clItables)
    } else if index == 44 {
        Some(Pass::TypeRefining)
    } else if index == 45 {
        Some(Pass::TypeRefiningGufa)
    } else if index == 46 {
        Some(Pass::Heap2Local)
    } else if index == 47 {
        Some(Pass::HeapStoreOptimization)
    } else if index == 48 {
        Some(Pass::InlineMain)
    } else if index == 49 {
        Some(Pass::Inlining)
    } else if index == 50 {
        Some(Pass::InliningOptimizing)
    } else if index == 51 {
        Some(Pass::IntrinsicLowering)
    } else if index == 52 {
        Some(Pass::LegalizeJsInterface)
    } else if index == 53 {
        Some(Pass::LegalizeAndPruneJsInterface)
    } else if index == 54 {
        Some(Pass::LocalCse)
    } else if index == 55 {
        Some(Pass::LocalSubtyping)
    } else if index == 56 {
        Some(Pass::LogExecution)
    } else if index == 57 {
        Some(Pass::I64ToI32Lowering)
    } else if index == 58 {
        Some(Pass::TraceCalls)
    } else if index == 59 {
        Some(Pass::InstrumentBranchHints)
    } else if index == 60 {
        Some(Pass::InstrumentLocals)
    } else if index == 61 {
        Some(Pass::InstrumentMemory)
    } else if index == 62 {
        Some(Pass::Licm)
    } else if index == 63 {
        Some(Pass::LimitSegments)
    } else if index == 64 {
        Some(Pass::MakeSharedObjects)
    } else if index == 65 {
        Some(Pass::MarkJsCalled)
    } else if index == 66 {
        Some(Pass::Memory64Lowering)
    } else if index == 67 {
        Some(Pass::Table64Lowering)
    } else if index == 68 {
        Some(Pass::LlvmMemoryCopyFillLowering)
    } else if index == 69 {
        Some(Pass::MemoryPacking)
    } else if index == 70 {
        Some(Pass::MergeBlocks)
    } else if index == 71 {
        Some(Pass::MergeSimilarFunctions)
    } else if index == 72 {
        Some(Pass::MergeLocals)
    } else if index == 73 {
        Some(Pass::Metrics)
    } else if index == 74 {
        Some(Pass::MinifyImports)
    } else if index == 75 {
        Some(Pass::MinifyImportsAndExports)
    } else if index == 76 {
        Some(Pass::MinifyImportsAndExportsAndModules)
    } else if index == 77 {
        Some(Pass::MinimizeRecGroups)
    } else if index == 78 {
        Some(Pass::Monomorphize)
    } else if index == 79 {
        Some(Pass::MonomorphizeAlways)
    } else if index == 80 {
        Some(Pass::MultiMemoryLowering)
    } else if index == 81 {
        Some(Pass::MultiMemoryLoweringWithBoundsChecks)
    } else if index == 82 {
        Some(Pass::Nm)
    } else if index == 83 {
        Some(Pass::NameTypes)
    } else if index == 84 {
        Some(Pass::NoInline)
    } else if index == 85 {
        Some(Pass::NoFullInline)
    } else if index == 86 {
        Some(Pass::NoPartialInline)
    } else if index == 87 {
        Some(Pass::LlvmNontrappingFptointLowering)
    } else if index == 88 {
        Some(Pass::OnceReduction)
    } else if index == 89 {
        Some(Pass::OptimizeAddedConstants)
    } else if index == 90 {
        Some(Pass::OptimizeAddedConstantsPropagate)
    } else if index == 91 {
        Some(Pass::OptimizeCasts)
    } else if index == 92 {
        Some(Pass::OptimizeInstructions)
    } else if index == 93 {
        Some(Pass::Outlining)
    } else if index == 94 {
        Some(Pass::PickLoadSigns)
    } else if index == 95 {
        Some(Pass::Poppify)
    } else if index == 96 {
        Some(Pass::PostEmscripten)
    } else if index == 97 {
        Some(Pass::OptimizeForJs)
    } else if index == 98 {
        Some(Pass::Precompute)
    } else if index == 99 {
        Some(Pass::PrecomputePropagate)
    } else if index == 100 {
        Some(Pass::Print)
    } else if index == 101 {
        Some(Pass::PrintMinified)
    } else if index == 102 {
        Some(Pass::PrintFeatures)
    } else if index == 103 {
        Some(Pass::PrintFull)
    } else if index == 104 {
        Some(Pass::PrintBoundary)
    } else if index == 105 {
        Some(Pass::PrintCallGraph)
    } else if index == 106 {
        Some(Pass::PrintFunctionMap)
    } else if index == 107 {
        Some(Pass::Symbolmap)
    } else if index == 108 {
        Some(Pass::PropagateGlobalsGlobally)
    } else if index == 109 {
        Some(Pass::RemoveNonJsOps)
    } else if index == 110 {
        Some(Pass::RemoveRelaxedSimd)
    } else if index == 111 {
        Some(Pass::RemoveExports)
    } else if index == 112 {
        Some(Pass::RemoveImports)
    } else if index == 113 {
        Some(Pass::RemoveMemoryInit)
    } else if index == 114 {
        Some(Pass::RemoveMemory)
    } else if index == 115 {
        Some(Pass::RemoveUnusedBrs)
    } else if index == 116 {
        Some(Pass::RemoveUnusedModuleElements)
    } else if index == 117 {
        Some(Pass::RemoveUnusedNonfunctionModuleElements)
    } else if index == 118 {
        Some(Pass::RemoveUnusedNames)
    } else if index == 119 {
        Some(Pass::RemoveUnusedTypes)
    } else if index == 120 {
        Some(Pass::ReorderFunctionsByName)
    } else if index == 121 {
        Some(Pass::ReorderFunctions)
    } else if index == 122 {
        Some(Pass::ReorderGlobals)
    } else if index == 123 {
        Some(Pass::RecorderLocals)
    } else if index == 124 {
        Some(Pass::ReorderTypes)
    } else if index == 125 {
        Some(Pass::Rereloop)
    } else if index == 126 {
        Some(Pass::Rse)
    } else if index == 127 {
        Some(Pass::Roundtrip)
    } else if index == 128 {
        Some(Pass::SafeHeap)
    } else if index == 129 {
        Some(Pass::SetGlobals)
    } else if index == 130 {
        Some(Pass::SeparateDataSegments)
    } else if index == 131 {
        Some(Pass::SignaturePruning)
    } else if index == 132 {
        Some(Pass::SignatureRefining)
    } else if index == 133 {
        Some(Pass::SignextLowering)
    } else if index == 134 {
        Some(Pass::SimplifyGlobals)
    } else if index == 135 {
        Some(Pass::SimplifyGlobalsOptimizing)
    } else if index == 136 {
        Some(Pass::SimplifyLocals)
    } else if index == 137 {
        Some(Pass::SimplifyLocalsNonesting)
    } else if index == 138 {
        Some(Pass::SimplifyLocalsNotee)
    } else if index == 139 {
        Some(Pass::SimplifyLocalsNostructure)
    } else if index == 140 {
        Some(Pass::SimplifyLocalsNoteeNostructure)
    } else if index == 141 {
        Some(Pass::Souperify)
    } else if index == 142 {
        Some(Pass::SouperifySingleUse)
    } else if index == 143 {
        Some(Pass::SpillPointers)
    } else if index == 144 {
        Some(Pass::StubUnsupportedJs)
    } else if index == 145 {
        Some(Pass::Ssa)
    } else if index == 146 {
        Some(Pass::SsaNomerge)
    } else if index == 147 {
        Some(Pass::StringGathering)
    } else if index == 148 {
        Some(Pass::StringLifting)
    } else if index == 149 {
        Some(Pass::StringLowering)
    } else if index == 150 {
        Some(Pass::StringLoweringMagicImports)
    } else if index == 151 {
        Some(Pass::StringLoweringMagicImportsAssert)
    } else if index == 152 {
        Some(Pass::Strip)
    } else if index == 153 {
        Some(Pass::StackCheck)
    } else if index == 154 {
        Some(Pass::StripDebug)
    } else if index == 155 {
        Some(Pass::StripDwarf)
    } else if index == 156 {
        Some(Pass::StripProducers)
    } else if index == 157 {
        Some(Pass::StripEh)
    } else if index == 158 {
        Some(Pass::StripTargetFeatuers)
    } else if index == 159 {
        Some(Pass::StripToolchainAnnotations)
    } else if index == 160 {
        Some(Pass::TranslateToNewEh)
    } else if index == 161 {
        Some(Pass::TranslateToExnref)
    } else if index == 162 {
        Some(Pass::TrapModeClamp)
    } else if index == 163 {
        Some(Pass::TrapModeJs)
    } else if index == 164 {
        Some(Pass::TupleOptimization)
    } else if index == 165 {
        Some(Pass::TypeFinalizing)
    } else if index == 166 {
        Some(Pass::TypeMerging)
    } else if index == 167 {
        Some(Pass::TypeSsa)
    } else if index == 168 {
        Some(Pass::TypeUnfinalizing)
    } else if index == 169 {
        Some(Pass::Unsubtyping)
    } else if index == 170 {
        Some(Pass::Untee)
    } else if index == 171 {
        Some(Pass::Vacuum)
    } else {
        None
    }
}

impl Pass {
    /// The position of the pass in the order the passes are declared.
    pub open spec fn index(self) -> int {
        match self {
            Pass::AlignmentLowering => 0,
            Pass::Asyncify => 1,
            Pass::AvoidReinterprets => 2,
            Pass::Dae => 3,
            Pass::DaeOptimizing => 4,
            Pass::Dae2 => 5,
            Pass::AbstractTypeRefining => 6,
            Pass::CoalesceLocals => 7,
            Pass::CoalesceLocalsLearning => 8,
            Pass::CodePushing => 9,
            Pass::CodeFolding => 10,
            Pass::ConstHoisting => 11,
            Pass::Cfp => 12,
            Pass::CfpReftest => 13,
            Pass::ConstraintAnalysis => 14,
            Pass::Dce => 15,
            Pass::Dealign => 16,
            Pass::PropagateDebugLocs => 17,
            Pass::DeNan => 18,
            Pass::Directize => 19,
            Pass::DiscardGlobalEffects => 20,
            Pass::Dfo => 21,
            Pass::DwarfDump => 22,
            Pass::DuplicateImportElimination => 23,
            Pass::DuplicateFunctionElimination => 24,
            Pass::EmitTargetFeatures => 25,
            Pass::EncloseWorld => 26,
            Pass::ExtractFunction => 27,
            Pass::ExtractFunctionIndex => 28,
            Pass::Flatten => 29,
            Pass::FpCastEmu => 30,
            Pass::FuncMetrics => 31,
            Pass::GenerateDyncalls => 32,
            Pass::GenerateI64Dyncalls => 33,
            Pass::GenerateGlobalEffects => 34,
            Pass::GlobalRefining => 35,
            Pass::Gsi => 36,
            Pass::GsiDescCast => 37,
            Pass::Gto => 38,
            Pass::Gufa => 39,
            Pass::GufaCastAll => 40,
            Pass::GufaOptimizing => 41,
            Pass::OptimizeJ2cl => 42,
            Pass::MergeJ2clItables => 43,
            Pass::TypeRefining => 44,
            Pass::TypeRefiningGufa => 45,
            Pass::Heap2Local => 46,
            Pass::HeapStoreOptimization => 47,
            Pass::InlineMain => 48,
            Pass::Inlining => 49,
            Pass::InliningOptimizing => 50,
            Pass::IntrinsicLowering => 51,
            Pass::LegalizeJsInterface => 52,
            Pass::LegalizeAndPruneJsInterface => 53,
            Pass::LocalCse => 54,
            Pass::LocalSubtyping => 55,
            Pass::LogExecution => 56,
            Pass::I64ToI32Lowering => 57,
            Pass::TraceCalls => 58,
            Pass::InstrumentBranchHints => 59,
            Pass::InstrumentLocals => 60,
            Pass::InstrumentMemory => 61,
            Pass::Licm => 62,
            Pass::LimitSegments => 63,
            Pass::MakeSharedObjects => 64,
            Pass::MarkJsCalled => 65,
            Pass::Memory64Lowering => 66,
            Pass::Table64Lowering => 67,
            Pass::LlvmMemoryCopyFillLowering => 68,
            Pass::MemoryPacking => 69,
            Pass::MergeBlocks => 70,
            Pass::MergeSimilarFunctions => 71,
            Pass::MergeLocals => 72,
            Pass::Metrics => 73,
            Pass::MinifyImports => 74,
            Pass::MinifyImportsAndExports => 75,
            Pass::MinifyImportsAndExportsAndModules => 76,
            Pass::MinimizeRecGroups => 77,
            Pass::Monomorphize => 78,
            Pass::MonomorphizeAlways => 79,
            Pass::MultiMemoryLowering => 80,
            Pass::MultiMemoryLoweringWithBoundsChecks => 81,
            Pass::Nm => 82,
            Pass::NameTypes => 83,
            Pass::NoInline => 84,
            Pass::NoFullInline => 85,
            Pass::NoPartialInline => 86,
            Pass::LlvmNontrappingFptointLowering => 87,
            Pass::OnceReduction => 88,
            Pass::OptimizeAddedConstants => 89,
            Pass::OptimizeAddedConstantsPropagate => 90,
            Pass::OptimizeCasts => 91,
            Pass::OptimizeInstructions => 92,
            Pass::Outlining => 93,
            Pass::PickLoadSigns => 94,
            Pass::Poppify => 95,
            Pass::PostEmscripten => 96,
            Pass::OptimizeForJs => 97,
            Pass::Precompute => 98,
            Pass::PrecomputePropagate => 99,
            Pass::Print => 100,
            Pass::PrintMinified => 101,
            Pass::PrintFeatures => 102,
            Pass::PrintFull => 103,
            Pass::PrintBoundary => 104,
            Pass::PrintCallGraph => 105,
            Pass::PrintFunctionMap => 106,
            Pass::Symbolmap => 107,
            Pass::PropagateGlobalsGlobally => 108,
            Pass::RemoveNonJsOps => 109,
            Pass::RemoveRelaxedSimd => 110,
            Pass::RemoveExports => 111,
            Pass::RemoveImports => 112,
            Pass::RemoveMemoryInit => 113,
            Pass::RemoveMemory => 114,
            Pass::RemoveUnusedBrs => 115,
            Pass::RemoveUnusedModuleElements => 116,
            Pass::RemoveUnusedNonfunctionModuleElements => 117,
            Pass::RemoveUnusedNames => 118,
            Pass::RemoveUnusedTypes => 119,
            Pass::ReorderFunctionsByName => 120,
            Pass::ReorderFunctions => 121,
            Pass::ReorderGlobals => 122,
            Pass::RecorderLocals => 123,
            Pass::ReorderTypes => 124,
            Pass::Rereloop => 125,
            Pass::Rse => 126,
            Pass::Roundtrip => 127,
            Pass::SafeHeap => 128,
            Pass::SetGlobals => 129,
            Pass::SeparateDataSegments => 130,
            Pass::SignaturePruning => 131,
            Pass::SignatureRefining => 132,
            Pass::SignextLowering => 133,
            Pass::SimplifyGlobals => 134,
            Pass::SimplifyGlobalsOptimizing => 135,
            Pass::SimplifyLocals => 136,
            Pass::SimplifyLocalsNonesting => 137,
            Pass::SimplifyLocalsNotee => 138,
            Pass::SimplifyLocalsNostructure => 139,
            Pass::SimplifyLocalsNoteeNostructure => 140,
            Pass::Souperify => 141,
            Pass::SouperifySingleUse => 142,
            Pass::SpillPointers => 143,
            Pass::StubUnsupportedJs => 144,
            Pass::Ssa => 145,
            Pass::SsaNomerge => 146,
            Pass::StringGathering => 147,
            Pass::StringLifting => 148,
            Pass::StringLowering => 149,
            Pass::StringLoweringMagicImports => 150,
            Pass::StringLoweringMagicImportsAssert => 151,
            Pass::Strip => 152,
            Pass::StackCheck => 153,
            Pass::StripDebug => 154,
            Pass::StripDwarf => 155,
            Pass::StripProducers => 156,
            Pass::StripEh => 157,
            Pass::StripTargetFeatuers => 158,
            Pass::StripToolchainAnnotations => 159,
            Pass::TranslateToNewEh => 160,
            Pass::TranslateToExnref => 161,
            Pass::TrapModeClamp => 162,
            Pass::TrapModeJs => 163,
            Pass::TupleOptimization => 164,
            Pass::TypeFinalizing => 165,
            Pass::TypeMerging => 166,
            Pass::TypeSsa => 167,
            Pass::TypeUnfinalizing => 168,
            Pass::Unsubtyping => 169,
            Pass::Untee => 170,
            Pass::Vacuum => 171,
        }
    }
}

/// Each pass is at its own index, and each index below `PASS_COUNT` holds the
/// pass whose index it is.
pub proof fn lemma_pass_index(pass: Pass, index: int)
    ensures
        0 <= pass.index() < PASS_COUNT,
        pass_at_index(pass.index()) == Some(pass),
        0 <= index < PASS_COUNT ==> pass_at_index(index) is Some && pass_at_index(index).unwrap().index() == index,
        !(0 <= index < PASS_COUNT) ==> pass_at_index(index) is None,
{
}

fn pass_at(index: usize) -> (pass: Pass)
    requires
        index < PASS_COUNT,
    ensures
        pass_at_index(index as int) == Some(pass),
{
    match index {
        0 => Pass::AlignmentLowering,
        1 => Pass::Asyncify,
        2 => Pass::AvoidReinterprets,
        3 => Pass::Dae,
        4 => Pass::DaeOptimizing,
        5 => Pass::Dae2,
        6 => Pass::AbstractTypeRefining,
        7 => Pass::CoalesceLocals,
        8 => Pass::CoalesceLocalsLearning,
        9 => Pass::CodePushing,
        10 => Pass::CodeFolding,
        11 => Pass::ConstHoisting,
        12 => Pass::Cfp,
        13 => Pass::CfpReftest,
        14 => Pass::ConstraintAnalysis,
        15 => Pass::Dce,
        16 => Pass::Dealign,
        17 => Pass::PropagateDebugLocs,
        18 => Pass::DeNan,
        19 => Pass::Directize,
        20 => Pass::DiscardGlobalEffects,
        21 => Pass::Dfo,
        22 => Pass::DwarfDump,
        23 => Pass::DuplicateImportElimination,
        24 => Pass::DuplicateFunctionElimination,
        25 => Pass::EmitTargetFeatures,
        26 => Pass::EncloseWorld,
        27 => Pass::ExtractFunction,
        28 => Pass::ExtractFunctionIndex,
        29 => Pass::Flatten,
        30 => Pass::FpCastEmu,
        31 => Pass::FuncMetrics,
        32 => Pass::GenerateDyncalls,
        33 => Pass::GenerateI64Dyncalls,
        34 => Pass::GenerateGlobalEffects,
        35 => Pass::GlobalRefining,
        36 => Pass::Gsi,
        37 => Pass::GsiDescCast,
        38 => Pass::Gto,
        39 => Pass::Gufa,
        40 => Pass::GufaCastAll,
        41 => Pass::GufaOptimizing,
        42 => Pass::OptimizeJ2cl,
        43 => Pass::MergeJ2clItables,
        44 => Pass::TypeRefining,
        45 => Pass::TypeRefiningGufa,
        46 => Pass::Heap2Local,
        47 => Pass::HeapStoreOptimization,
        48 => Pass::InlineMain,
        49 => Pass::Inlining,
        50 => Pass::InliningOptimizing,
        51 => Pass::IntrinsicLowering,
        52 => Pass::LegalizeJsInterface,
        53 => Pass::LegalizeAndPruneJsInterface,
        54 => Pass::LocalCse,
        55 => Pass::LocalSubtyping,
        56 => Pass::LogExecution,
        57 => Pass::I64ToI32Lowering,
        58 => Pass::TraceCalls,
        59 => Pass::InstrumentBranchHints,
        60 => Pass::InstrumentLocals,
        61 => Pass::InstrumentMemory,
        62 => Pass::Licm,
        63 => Pass::LimitSegments,
        64 => Pass::MakeSharedObjects,
        65 => Pass::MarkJsCalled,
        66 => Pass::Memory64Lowering,
        67 => Pass::Table64Lowering,
        68 => Pass::LlvmMemoryCopyFillLowering,
        69 => Pass::MemoryPacking,
        70 => Pass::MergeBlocks,
        71 => Pass::MergeSimilarFunctions,
        72 => Pass::MergeLocals,
        73 => Pass::Metrics,
        74 => Pass::MinifyImports,
        75 => Pass::MinifyImportsAndExports,
        76 => Pass::MinifyImportsAndExportsAndModules,
        77 => Pass::MinimizeRecGroups,
        78 => Pass::Monomorphize,
        79 => Pass::MonomorphizeAlways,
        80 => Pass::MultiMemoryLowering,
        81 => Pass::MultiMemoryLoweringWithBoundsChecks,
        82 => Pass::Nm,
        83 => Pass::NameTypes,
        84 => Pass::NoInline,
        85 => Pass::NoFullInline,
        86 => Pass::NoPartialInline,
        87 => Pass::LlvmNontrappingFptointLowering,
        88 => Pass::OnceReduction,
        89 => Pass::OptimizeAddedConstants,
        90 => Pass::OptimizeAddedConstantsPropagate,
        91 => Pass::OptimizeCasts,
        92 => Pass::OptimizeInstructions,
        93 => Pass::Outlining,
        94 => Pass::PickLoadSigns,
        95 => Pass::Poppify,
        96 => Pass::PostEmscripten,
        97 => Pass::OptimizeForJs,
        98 => Pass::Precompute,
        99 => Pass::PrecomputePropagate,
        100 => Pass::Print,
        101 => Pass::PrintMinified,
        102 => Pass::PrintFeatures,
        103 => Pass::PrintFull,
        104 => Pass::PrintBoundary,
        105 => Pass::PrintCallGraph,
        106 => Pass::PrintFunctionMap,
        107 => Pass::Symbolmap,
        108 => Pass::PropagateGlobalsGlobally,
        109 => Pass::RemoveNonJsOps,
        110 => Pass::RemoveRelaxedSimd,
        111 => Pass::RemoveExports,
        112 => Pass::RemoveImports,
        113 => Pass::RemoveMemoryInit,
        114 => Pass::RemoveMemory,
        115 => Pass::RemoveUnusedBrs,
        116 => Pass::RemoveUnusedModuleElements,
        117 => Pass::RemoveUnusedNonfunctionModuleElements,
        118 => Pass::RemoveUnusedNames,
        119 => Pass::RemoveUnusedTypes,
        120 => Pass::ReorderFunctionsByName,
        121 => Pass::ReorderFunctions,
        122 => Pass::ReorderGlobals,
        123 => Pass::RecorderLocals,
        124 => Pass::ReorderTypes,
        125 => Pass::Rereloop,
        126 => Pass::Rse,
        127 => Pass::Roundtrip,
        128 => Pass::SafeHeap,
        129 => Pass::SetGlobals,
        130 => Pass::SeparateDataSegments,
        131 => Pass::SignaturePruning,
        132 => Pass::SignatureRefining,
        133 => Pass::SignextLowering,
        134 => Pass::SimplifyGlobals,
        135 => Pass::SimplifyGlobalsOptimizing,
        136 => Pass::SimplifyLocals,
        137 => Pass::SimplifyLocalsNonesting,
        138 => Pass::SimplifyLocalsNotee,
        139 => Pass::SimplifyLocalsNostructure,
        140 => Pass::SimplifyLocalsNoteeNostructure,
        141 => Pass::Souperify,
        142 => Pass::SouperifySingleUse,
        143 => Pass::SpillPointers,
        144 => Pass::StubUnsupportedJs,
        145 => Pass::Ssa,
        146 => Pass::SsaNomerge,
        147 => Pass::StringGathering,
        148 => Pass::StringLifting,
        149 => Pass::StringLowering,
        150 => Pass::StringLoweringMagicImports,
        151 => Pass::StringLoweringMagicImportsAssert,
        152 => Pass::Strip,
        153 => Pass::StackCheck,
        154 => Pass::StripDebug,
        155 => Pass::StripDwarf,
        156 => Pass::StripProducers,
        157 => Pass::StripEh,
        158 => Pass::StripTargetFeatuers,
        159 => Pass::StripToolchainAnnotations,
        160 => Pass::TranslateToNewEh,
        161 => Pass::TranslateToExnref,
        162 => Pass::TrapModeClamp,
        163 => Pass::TrapModeJs,
        164 => Pass::TupleOptimization,
        165 => Pass::TypeFinalizing,
        166 => Pass::TypeMerging,
        167 => Pass::TypeSsa,
        168 => Pass::TypeUnfinalizing,
        169 => Pass::Unsubtyping,
        170 => Pass::Untee,
        _ => Pass::Vacuum,
    }
}

impl Pass {
    /// Every pass, once each, in the order the passes are declared.
    pub fn all() -> (passes: Vec<Pass>)
        ensures
            passes@.len() == PASS_COUNT,
            forall|i: int| 0 <= i < PASS_COUNT ==> pass_at_index(i) == Some(#[trigger] passes@[i]),
            forall|pass: Pass| #[trigger] passes@.contains(pass),
            passes@.no_duplicates(),
    {
        let mut passes: Vec<Pass> = Vec::new();
        let mut i: usize = 0;
        while i < PASS_COUNT
            invariant
                i <= PASS_COUNT,
                passes@.len() == i,
                forall|j: int| 0 <= j < i ==> pass_at_index(j) == Some(#[trigger] passes@[j]),
            decreases PASS_COUNT - i,
        {
            passes.push(pass_at(i));
            i = i + 1;
        }
        assert forall|pass: Pass| #[trigger] passes@.contains(pass) by {
            lemma_pass_index(pass, pass.index());
            assert(passes@[pass.index()] == pass);
        }
        assert forall|i: int, j: int| 0 <= i < passes@.len() && 0 <= j < passes@.len() && i != j implies passes@[i]
            != passes@[j] by {
            lemma_pass_index(passes@[i], i);
            lemma_pass_index(passes@[j], j);
        }
        passes
    }
}

} // verus!
