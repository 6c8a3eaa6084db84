use vstd::prelude::*;

verus! {

/// Optional wasm features.
///
/// The [`Feature::Mvp`] feature represents the original spec.
/// Other features are post-MVP,
/// some specified and implemented in all engines,
/// some specified but not implemented, some experimental.
///
/// See [the WebAssembly roadmap][rm] for an indication of which features can be
/// used where.
///
/// [rm]: https://webassembly.org/roadmap/
#[derive(Copy, Clone, Debug, Eq, Hash, PartialEq, Structural)]
pub enum Feature {
    /// No feature.
    NoFeature,
    /// Atomics.
    ///
    /// [Specification](https://github.com/WebAssembly/threads/blob/master/proposals/threads/Overview.md).
    Atomics,
    /// Import and export of mutable globals.
    ///
    /// [Specification](https://github.com/WebAssembly/mutable-global/blob/master/proposals/mutable-global/Overview.md).
    MutableGlobals,
    TruncSat,
    /// Fixed-width SIMD.
    ///
    /// [Specification](https://github.com/WebAssembly/simd/blob/master/proposals/simd/SIMD.md).
    Simd,
    /// Bulk memory operations.
    ///
    /// [Specification](https://github.com/WebAssembly/bulk-memory-operations/blob/master/proposals/bulk-memory-operations/Overview.md).
    BulkMemory,
    /// Sign extension operations.
    ///
    /// [Specification](https://github.com/WebAssembly/spec/blob/master/proposals/sign-extension-ops/Overview.md).
    SignExt,
    /// Exception handling.
    ///
    /// [Specification](https://github.com/WebAssembly/exception-handling/blob/master/proposals/exception-handling/Exceptions.md).
    ExceptionHandling,
    /// Tail calls.
    ///
    /// [Specification](https://github.com/WebAssembly/tail-call/blob/master/proposals/tail-call/Overview.md).
    TailCall,
    /// Reference types.
    ///
    /// [Specification](https://github.com/WebAssembly/reference-types/blob/master/proposals/reference-types/Overview.md).
    ReferenceTypes,
    /// Multi-value.
    ///
    /// [Specification](https://github.com/WebAssembly/spec/blob/master/proposals/multi-value/Overview.md)
    Multivalue,
    Gc,
    /// Large memory.
    ///
    /// [Specification](https://github.com/WebAssembly/memory64/blob/main/proposals/memory64/Overview.md).
    Memory64,
    /// Relaxed SIMD.
    ///
    /// [Specification](https://github.com/WebAssembly/relaxed-simd/tree/main/proposals/relaxed-simd).
    RelaxedSimd,
    /// Extended constant expressions.
    ///
    /// [Specification](https://github.com/WebAssembly/relaxed-simd/tree/main/proposals/relaxed-simd).
    ExtendedConst,
    Strings,
    /// Multiple memory.
    ///
    /// [Specification](https://github.com/WebAssembly/multi-memory/blob/master/proposals/multi-memory/Overview.md).
    MultiMemory,
    /// Stack switching.
    ///
    /// [Specification](https://github.com/WebAssembly/stack-switching/blob/main/proposals/stack-switching/Overview.md).
    StackSwitching,
    /// Shared-everything threads.
    ///
    /// [Specification](https://github.com/WebAssembly/shared-everything-threads/blob/main/proposals/shared-everything-threads/Overview.md).
    SharedEverything,
    /// Float 16 operations.
    ///
    /// [Specification](https://github.com/WebAssembly/half-precision/blob/main/proposals/half-precision/Overview.md).
    Fp16,
    /// Just the `memory.copy` and `memory.fill` operations.
    BulkMemoryOpt,
    /// LEB encoding of `call_indirect`.
    ///
    /// This is a no-op for compatibility: Binaryen always accepts overlong
    /// LEB `call_indirect` encodings.
    CallIndirectOverlong,
    /// Custom descriptors (RTTs) and exact references.
    ///
    /// [Specification](https://github.com/WebAssembly/custom-descriptors/blob/main/proposals/custom-descriptors/Overview.md).
    CustomDescriptors,
    /// Acquire/release atomic memory operations.
    AcquireReleaseAtomics,
    /// Custom page sizes.
    ///
    /// [Specification](https://github.com/WebAssembly/custom-page-sizes/blob/main/proposals/custom-page-sizes/Overview.md).
    CustomPageSizes,
    /// Multibyte array loads and stores.
    Multibyte,
    /// Wide arithmetic.
    ///
    /// [Specification](https://github.com/WebAssembly/wide-arithmetic/blob/main/proposals/wide-arithmetic/Overview.md).
    WideArithmetic,
    /// Compact import section.
    CompactImports,
    /// Relaxed atomic memory operations.
    RelaxedAtomics,
    /// The original WebAssembly specification.
    ///
    /// It has the same value as `None`.
    Mvp,
    /// The default feature set.
    ///
    /// Includes [`Feature::SignExt`] and [`Feature::MutableGlobals`].
    Default,
    /// All features.
    All,
}

/// The error of parsing a name that is not the name of a feature.
#[derive(Copy, Clone, Debug, PartialEq, Eq, Structural)]
pub enum ParseFeatureError {
    VariantNotFound,
}

/// The feature that a name on the command line stands for, if any.
///
/// `NoFeature`, `Mvp`, `Default` and `All` have no name.
pub open spec fn feature_named(name: Seq<char>) -> Option<Feature> {
    if name == "threads"@ {
        Some(Feature::Atomics)
    } else if name == "mutable-globals"@ {
        Some(Feature::MutableGlobals)
    } else if name == "nontrapping-float-to-int"@ {
        Some(Feature::TruncSat)
    } else if name == "simd"@ {
        Some(Feature::Simd)
    } else if name == "bulk-memory"@ {
        Some(Feature::BulkMemory)
    } else if name == "sign-ext"@ {
        Some(Feature::SignExt)
    } else if name == "exception-handling"@ {
        Some(Feature::ExceptionHandling)
    } else if name == "tail-call"@ {
        Some(Feature::TailCall)
    } else if name == "reference-types"@ {
        Some(Feature::ReferenceTypes)
    } else if name == "multivalue"@ {
        Some(Feature::Multivalue)
    } else if name == "gc"@ {
        Some(Feature::Gc)
    } else if name == "memory64"@ {
        Some(Feature::Memory64)
    } else if name == "relaxed-simd"@ {
        Some(Feature::RelaxedSimd)
    } else if name == "extended-const"@ {
        Some(Feature::ExtendedConst)
    } else if name == "strings"@ {
        Some(Feature::Strings)
    } else if name == "multimemory"@ {
        Some(Feature::MultiMemory)
    } else if name == "stack-switching"@ {
        Some(Feature::StackSwitching)
    } else if name == "shared-everything"@ {
        Some(Feature::SharedEverything)
    } else if name == "fp16"@ {
        Some(Feature::Fp16)
    } else if name == "bulk-memory-opt"@ {
        Some(Feature::BulkMemoryOpt)
    } else if name == "call-indirect-overlong"@ {
        Some(Feature::CallIndirectOverlong)
    } else if name == "custom-descriptors"@ {
        Some(Feature::CustomDescriptors)
    } else if name == "acquire-release-atomics"@ {
        Some(Feature::AcquireReleaseAtomics)
    } else if name == "custom-page-sizes"@ {
        Some(Feature::CustomPageSizes)
    } else if name == "multibyte"@ {
        Some(Feature::Multibyte)
    } else if name == "wide-arithmetic"@ {
        Some(Feature::WideArithmetic)
    } else if name == "compact-imports"@ {
        Some(Feature::CompactImports)
    } else if name == "relaxed-atomics"@ {
        Some(Feature::RelaxedAtomics)
    } else {
        None
    }
}

/// The name each feature has on the command line, as Binaryen's tools spell
/// it (`--enable-<name>`); `NoFeature`, `Mvp`, `Default` and `All` have none.
pub open spec fn command_line_name(feature: Feature) -> Option<Seq<char>> {
    match feature {
        Feature::Atomics => Some("threads"@),
        Feature::MutableGlobals => Some("mutable-globals"@),
        Feature::TruncSat => Some("nontrapping-float-to-int"@),
        Feature::Simd => Some("simd"@),
        Feature::BulkMemory => Some("bulk-memory"@),
        Feature::SignExt => Some("sign-ext"@),
        Feature::ExceptionHandling => Some("exception-handling"@),
        Feature::TailCall => Some("tail-call"@),
        Feature::ReferenceTypes => Some("reference-types"@),
        Feature::Multivalue => Some("multivalue"@),
        Feature::Gc => Some("gc"@),
        Feature::Memory64 => Some("memory64"@),
        Feature::RelaxedSimd => Some("relaxed-simd"@),
        Feature::ExtendedConst => Some("extended-const"@),
        Feature::Strings => Some("strings"@),
        Feature::MultiMemory => Some("multimemory"@),
        Feature::StackSwitching => Some("stack-switching"@),
        Feature::SharedEverything => Some("shared-everything"@),
        Feature::Fp16 => Some("fp16"@),
        Feature::BulkMemoryOpt => Some("bulk-memory-opt"@),
        Feature::CallIndirectOverlong => Some("call-indirect-overlong"@),
        Feature::CustomDescriptors => Some("custom-descriptors"@),
        Feature::AcquireReleaseAtomics => Some("acquire-release-atomics"@),
        Feature::CustomPageSizes => Some("custom-page-sizes"@),
        Feature::Multibyte => Some("multibyte"@),
        Feature::WideArithmetic => Some("wide-arithmetic"@),
        Feature::CompactImports => Some("compact-imports"@),
        Feature::RelaxedAtomics => Some("relaxed-atomics"@),
        _ => None,
    }
}

/// Parsing is the inverse of the command-line names: the name of a feature
/// parses to that feature, and a name that parses to a feature is its name.
/// So no two names parse to the same feature, and no feature is lost.
pub proof fn lemma_names_parse_back(feature: Feature, name: Seq<char>)
    ensures
        command_line_name(feature) matches Some(n) ==> feature_named(n) == Some(feature),
        feature_named(name) matches Some(f) ==> command_line_name(f) == Some(name),
        command_line_name(feature) is None ==> feature_named(name) != Some(feature),
{
    broadcast use vstd::string::group_string_axioms;

    // For each name: its length, and the characters that tell it from the
    // other names of that length.
    reveal_strlit("threads");
    assert("threads"@.len() == 7 && "threads"@[0] == 't');
    reveal_strlit("mutable-globals");
    assert("mutable-globals"@.len() == 15 && "mutable-globals"@[0] == 'm');
    reveal_strlit("nontrapping-float-to-int");
    assert("nontrapping-float-to-int"@.len() == 24);
    reveal_strlit("simd");
    assert("simd"@.len() == 4 && "simd"@[0] == 's');
    reveal_strlit("bulk-memory");
    assert("bulk-memory"@.len() == 11 && "bulk-memory"@[0] == 'b');
    reveal_strlit("sign-ext");
    assert("sign-ext"@.len() == 8 && "sign-ext"@[0] == 's');
    reveal_strlit("exception-handling");
    assert("exception-handling"@.len() == 18 && "exception-handling"@[0] == 'e');
    reveal_strlit("tail-call");
    assert("tail-call"@.len() == 9 && "tail-call"@[0] == 't');
    reveal_strlit("reference-types");
    assert("reference-types"@.len() == 15 && "reference-types"@[2] == 'f');
    reveal_strlit("multivalue");
    assert("multivalue"@.len() == 10);
    reveal_strlit("gc");
    assert("gc"@.len() == 2);
    reveal_strlit("memory64");
    assert("memory64"@.len() == 8 && "memory64"@[0] == 'm');
    reveal_strlit("relaxed-simd");
    assert("relaxed-simd"@.len() == 12);
    reveal_strlit("extended-const");
    assert("extended-const"@.len() == 14);
    reveal_strlit("strings");
    assert("strings"@.len() == 7 && "strings"@[0] == 's');
    reveal_strlit("multimemory");
    assert("multimemory"@.len() == 11 && "multimemory"@[0] == 'm');
    reveal_strlit("stack-switching");
    assert("stack-switching"@.len() == 15 && "stack-switching"@[0] == 's');
    reveal_strlit("shared-everything");
    assert("shared-everything"@.len() == 17 && "shared-everything"@[0] == 's');
    reveal_strlit("fp16");
    assert("fp16"@.len() == 4 && "fp16"@[0] == 'f');
    reveal_strlit("bulk-memory-opt");
    assert("bulk-memory-opt"@.len() == 15 && "bulk-memory-opt"@[0] == 'b');
    reveal_strlit("call-indirect-overlong");
    assert("call-indirect-overlong"@.len() == 22);
    reveal_strlit("custom-descriptors");
    assert("custom-descriptors"@.len() == 18 && "custom-descriptors"@[0] == 'c');
    reveal_strlit("acquire-release-atomics");
    assert("acquire-release-atomics"@.len() == 23);
    reveal_strlit("custom-page-sizes");
    assert("custom-page-sizes"@.len() == 17 && "custom-page-sizes"@[0] == 'c');
    reveal_strlit("multibyte");
    assert("multibyte"@.len() == 9 && "multibyte"@[0] == 'm');
    reveal_strlit("wide-arithmetic");
    assert("wide-arithmetic"@.len() == 15 && "wide-arithmetic"@[0] == 'w');
    reveal_strlit("compact-imports");
    assert("compact-imports"@.len() == 15 && "compact-imports"@[0] == 'c');
    reveal_strlit("relaxed-atomics");
    assert("relaxed-atomics"@.len() == 15 && "relaxed-atomics"@[4] == 'x');
}

fn text_is(text: &String, name: &str) -> (is: bool)
    ensures
        is == (text@ == name@),
{
    *text == name.to_owned()
}

impl Feature {
    /// Parses the name that the feature has on the command line, such as
    /// `threads` or `bulk-memory`.
    pub fn from_name(name: &str) -> (feature: Result<Feature, ParseFeatureError>)
        ensures
            feature == (match feature_named(name@) {
                Some(f) => Ok(f),
                None => Err(ParseFeatureError::VariantNotFound),
            }),
    {
        let text = name.to_owned();
        if text_is(&text, "threads") {
            Ok(Feature::Atomics)
        } else if text_is(&text, "mutable-globals") {
            Ok(Feature::MutableGlobals)
        } else if text_is(&text, "nontrapping-float-to-int") {
            Ok(Feature::TruncSat)
        } else if text_is(&text, "simd") {
            Ok(Feature::Simd)
        } else if text_is(&text, "bulk-memory") {
            Ok(Feature::BulkMemory)
        } else if text_is(&text, "sign-ext") {
            Ok(Feature::SignExt)
        } else if text_is(&text, "exception-handling") {
            Ok(Feature::ExceptionHandling)
        } else if text_is(&text, "tail-call") {
            Ok(Feature::TailCall)
        } else if text_is(&text, "reference-types") {
            Ok(Feature::ReferenceTypes)
        } else if text_is(&text, "multivalue") {
            Ok(Feature::Multivalue)
        } else if text_is(&text, "gc") {
            Ok(Feature::Gc)
        } else if text_is(&text, "memory64") {
            Ok(Feature::Memory64)
        } else if text_is(&text, "relaxed-simd") {
            Ok(Feature::RelaxedSimd)
        } else if text_is(&text, "extended-const") {
            Ok(Feature::ExtendedConst)
        } else if text_is(&text, "strings") {
            Ok(Feature::Strings)
        } else if text_is(&text, "multimemory") {
            Ok(Feature::MultiMemory)
        } else if text_is(&text, "stack-switching") {
            Ok(Feature::StackSwitching)
        } else if text_is(&text, "shared-everything") {
            Ok(Feature::SharedEverything)
        } else if text_is(&text, "fp16") {
            Ok(Feature::Fp16)
        } else if text_is(&text, "bulk-memory-opt") {
            Ok(Feature::BulkMemoryOpt)
        } else if text_is(&text, "call-indirect-overlong") {
            Ok(Feature::CallIndirectOverlong)
        } else if text_is(&text, "custom-descriptors") {
            Ok(Feature::CustomDescriptors)
        } else if text_is(&text, "acquire-release-atomics") {
            Ok(Feature::AcquireReleaseAtomics)
        } else if text_is(&text, "custom-page-sizes") {
            Ok(Feature::CustomPageSizes)
        } else if text_is(&text, "multibyte") {
            Ok(Feature::Multibyte)
        } else if text_is(&text, "wide-arithmetic") {
            Ok(Feature::WideArithmetic)
        } else if text_is(&text, "compact-imports") {
            Ok(Feature::CompactImports)
        } else if text_is(&text, "relaxed-atomics") {
            Ok(Feature::RelaxedAtomics)
        } else {
            Err(ParseFeatureError::VariantNotFound)
        }
    }
}

impl std::str::FromStr for Feature {
    type Err = ParseFeatureError;

    fn from_str(name: &str) -> (feature: Result<Feature, ParseFeatureError>)
        ensures
            feature == (match feature_named(name@) {
                Some(f) => Ok(f),
                None => Err(ParseFeatureError::VariantNotFound),
            }),
    {
        Feature::from_name(name)
    }
}

} // verus!
