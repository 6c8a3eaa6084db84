use vstd::prelude::*;

verus! {

/// The wasm features as Binaryen numbers them.
///
/// Each proper feature is one bit of Binaryen's `u32` feature set; the number
/// that [`Feature::bits`] gives a variant is the one Binaryen uses for it.
#[derive(Copy, Clone, Debug)]
pub enum Feature {
    /// No feature: the original spec. MVP has the same value.
    NoFeature,
    Atomics,
    MutableGlobals,
    TruncSat,
    Simd,
    BulkMemory,
    SignExt,
    ExceptionHandling,
    TailCall,
    ReferenceTypes,
    Multivalue,
    Gc,
    Memory64,
    RelaxedSimd,
    ExtendedConst,
    Strings,
    MultiMemory,
    StackSwitching,
    SharedEverything,
    Fp16,
    BulkMemoryOpt,
    CallIndirectOverlong,
    CustomDescriptors,
    AcquireReleaseAtomics,
    CustomPageSizes,
    Multibyte,
    WideArithmetic,
    CompactImports,
    RelaxedAtomics,
    /// `SignExt | MutableGlobals`.
    Default,
    /// Every proper feature.
    All,
}

/// The highest bit index of a proper feature, plus one.
pub const FEATURE_COUNT: u32 = 28;

/// The proper feature that owns bit `index`, if any.
pub open spec fn feature_at(index: u32) -> Option<Feature> {
    if index == 0 {
        Some(Feature::Atomics)
    } else if index == 1 {
        Some(Feature::MutableGlobals)
    } else if index == 2 {
        Some(Feature::TruncSat)
    } else if index == 3 {
        Some(Feature::Simd)
    } else if index == 4 {
        Some(Feature::BulkMemory)
    } else if index == 5 {
        Some(Feature::SignExt)
    } else if index == 6 {
        Some(Feature::ExceptionHandling)
    } else if index == 7 {
        Some(Feature::TailCall)
    } else if index == 8 {
        Some(Feature::ReferenceTypes)
    } else if index == 9 {
        Some(Feature::Multivalue)
    } else if index == 10 {
        Some(Feature::Gc)
    } else if index == 11 {
        Some(Feature::Memory64)
    } else if index == 12 {
        Some(Feature::RelaxedSimd)
    } else if index == 13 {
        Some(Feature::ExtendedConst)
    } else if index == 14 {
        Some(Feature::Strings)
    } else if index == 15 {
        Some(Feature::MultiMemory)
    } else if index == 16 {
        Some(Feature::StackSwitching)
    } else if index == 17 {
        Some(Feature::SharedEverything)
    } else if index == 18 {
        Some(Feature::Fp16)
    } else if index == 19 {
        Some(Feature::BulkMemoryOpt)
    } else if index == 20 {
        Some(Feature::CallIndirectOverlong)
    } else if index == 21 {
        Some(Feature::CustomDescriptors)
    } else if index == 22 {
        Some(Feature::AcquireReleaseAtomics)
    } else if index == 23 {
        Some(Feature::CustomPageSizes)
    } else if index == 24 {
        Some(Feature::Multibyte)
    } else if index == 25 {
        Some(Feature::WideArithmetic)
    } else if index == 26 {
        Some(Feature::CompactImports)
    } else if index == 27 {
        Some(Feature::RelaxedAtomics)
    } else {
        None
    }
}

impl Feature {
    /// The bit that a proper feature occupies; `None` for the combinations
    /// `NoFeature`, `Default` and `All`.
    pub open spec fn bit_index(self) -> Option<u32> {
        match self {
            Feature::Atomics => Some(0),
            Feature::MutableGlobals => Some(1),
            Feature::TruncSat => Some(2),
            Feature::Simd => Some(3),
            Feature::BulkMemory => Some(4),
            Feature::SignExt => Some(5),
            Feature::ExceptionHandling => Some(6),
            Feature::TailCall => Some(7),
            Feature::ReferenceTypes => Some(8),
            Feature::Multivalue => Some(9),
            Feature::Gc => Some(10),
            Feature::Memory64 => Some(11),
            Feature::RelaxedSimd => Some(12),
            Feature::ExtendedConst => Some(13),
            Feature::Strings => Some(14),
            Feature::MultiMemory => Some(15),
            Feature::StackSwitching => Some(16),
            Feature::SharedEverything => Some(17),
            Feature::Fp16 => Some(18),
            Feature::BulkMemoryOpt => Some(19),
            Feature::CallIndirectOverlong => Some(20),
            Feature::CustomDescriptors => Some(21),
            Feature::AcquireReleaseAtomics => Some(22),
            Feature::CustomPageSizes => Some(23),
            Feature::Multibyte => Some(24),
            Feature::WideArithmetic => Some(25),
            Feature::CompactImports => Some(26),
            Feature::RelaxedAtomics => Some(27),
            _ => None,
        }
    }

    /// The value Binaryen gives the feature (set).
    pub open spec fn spec_bits(self) -> u32 {
        match self {
            Feature::NoFeature => 0,
            Feature::Atomics => 1u32 << 0u32,
            Feature::MutableGlobals => 1u32 << 1u32,
            Feature::TruncSat => 1u32 << 2u32,
            Feature::Simd => 1u32 << 3u32,
            Feature::BulkMemory => 1u32 << 4u32,
            Feature::SignExt => 1u32 << 5u32,
            Feature::ExceptionHandling => 1u32 << 6u32,
            Feature::TailCall => 1u32 << 7u32,
            Feature::ReferenceTypes => 1u32 << 8u32,
            Feature::Multivalue => 1u32 << 9u32,
            Feature::Gc => 1u32 << 10u32,
            Feature::Memory64 => 1u32 << 11u32,
            Feature::RelaxedSimd => 1u32 << 12u32,
            Feature::ExtendedConst => 1u32 << 13u32,
            Feature::Strings => 1u32 << 14u32,
            Feature::MultiMemory => 1u32 << 15u32,
            Feature::StackSwitching => 1u32 << 16u32,
            Feature::SharedEverything => 1u32 << 17u32,
            Feature::Fp16 => 1u32 << 18u32,
            Feature::BulkMemoryOpt => 1u32 << 19u32,
            Feature::CallIndirectOverlong => 1u32 << 20u32,
            Feature::CustomDescriptors => 1u32 << 21u32,
            Feature::AcquireReleaseAtomics => 1u32 << 22u32,
            Feature::CustomPageSizes => 1u32 << 23u32,
            Feature::Multibyte => 1u32 << 24u32,
            Feature::WideArithmetic => 1u32 << 25u32,
            Feature::CompactImports => 1u32 << 26u32,
            Feature::RelaxedAtomics => 1u32 << 27u32,
            Feature::Default => (1u32 << 5u32) | (1u32 << 1u32),
            Feature::All => 0x0fff_ffff,
        }
    }

    /// The value Binaryen gives the feature (set): the argument that its
    /// `FeatureSet::set` takes.
    pub fn bits(&self) -> (bits: u32)
        ensures
            bits == self.spec_bits(),
    {
        match self {
            Feature::NoFeature => 0,
            Feature::Atomics => 1u32 << 0u32,
            Feature::MutableGlobals => 1u32 << 1u32,
            Feature::TruncSat => 1u32 << 2u32,
            Feature::Simd => 1u32 << 3u32,
            Feature::BulkMemory => 1u32 << 4u32,
            Feature::SignExt => 1u32 << 5u32,
            Feature::ExceptionHandling => 1u32 << 6u32,
            Feature::TailCall => 1u32 << 7u32,
            Feature::ReferenceTypes => 1u32 << 8u32,
            Feature::Multivalue => 1u32 << 9u32,
            Feature::Gc => 1u32 << 10u32,
            Feature::Memory64 => 1u32 << 11u32,
            Feature::RelaxedSimd => 1u32 << 12u32,
            Feature::ExtendedConst => 1u32 << 13u32,
            Feature::Strings => 1u32 << 14u32,
            Feature::MultiMemory => 1u32 << 15u32,
            Feature::StackSwitching => 1u32 << 16u32,
            Feature::SharedEverything => 1u32 << 17u32,
            Feature::Fp16 => 1u32 << 18u32,
            Feature::BulkMemoryOpt => 1u32 << 19u32,
            Feature::CallIndirectOverlong => 1u32 << 20u32,
            Feature::CustomDescriptors => 1u32 << 21u32,
            Feature::AcquireReleaseAtomics => 1u32 << 22u32,
            Feature::CustomPageSizes => 1u32 << 23u32,
            Feature::Multibyte => 1u32 << 24u32,
            Feature::WideArithmetic => 1u32 << 25u32,
            Feature::CompactImports => 1u32 << 26u32,
            Feature::RelaxedAtomics => 1u32 << 27u32,
            Feature::Default => (1u32 << 5u32) | (1u32 << 1u32),
            Feature::All => 0x0fff_ffff,
        }
    }
}

proof fn lemma_shifted_bits_disjoint(i: u32, j: u32)
    requires
        i < 32,
        j < 32,
        i != j,
    ensures
        (1u32 << i) & (1u32 << j) == 0,
        1u32 << i != 0,
{
    assert((1u32 << i) & (1u32 << j) == 0 && 1u32 << i != 0) by (bit_vector)
        requires
            i < 32,
            j < 32,
            i != j,
    ;
}

/// Every proper feature is one bit of its own, below `FEATURE_COUNT`.
pub proof fn lemma_feature_is_one_bit(f: Feature)
    requires
        f.bit_index() is Some,
    ensures
        f.bit_index().unwrap() < FEATURE_COUNT,
        feature_at(f.bit_index().unwrap()) == Some(f),
        f.spec_bits() == 1u32 << f.bit_index().unwrap(),
{
}

/// Distinct proper features occupy distinct bits, and neither is empty.
pub proof fn lemma_feature_bits_disjoint(f: Feature, g: Feature)
    requires
        f.bit_index() is Some,
        g.bit_index() is Some,
        f != g,
    ensures
        f.spec_bits() & g.spec_bits() == 0,
        f.spec_bits() != 0,
{
    lemma_feature_is_one_bit(f);
    lemma_feature_is_one_bit(g);
    lemma_shifted_bits_disjoint(f.bit_index().unwrap(), g.bit_index().unwrap());
}

/// `Default` is `SignExt` together with `MutableGlobals`.
pub proof fn lemma_default_features()
    ensures
        Feature::Default.spec_bits() == Feature::SignExt.spec_bits() | Feature::MutableGlobals.spec_bits(),
        Feature::NoFeature.spec_bits() == 0,
{
}

/// `All` holds every feature, and its bits are exactly those of the proper
/// features.
pub proof fn lemma_all_features(f: Feature, i: u32)
    requires
        i < 32,
    ensures
        f.spec_bits() & Feature::All.spec_bits() == f.spec_bits(),
        Feature::All.spec_bits() & (1u32 << i) != 0 <==> feature_at(i) is Some,
{
    let a = Feature::All.spec_bits();
    assert(a == 0x0fff_ffffu32);
    assert(a & (1u32 << i) != 0 <==> i < 28) by (bit_vector)
        requires
            a == 0x0fff_ffffu32,
            i < 32,
    ;
    let b = f.spec_bits();
    match f {
        Feature::NoFeature => {
            assert(0u32 & a == 0u32) by (bit_vector);
        },
        Feature::Default => {
            assert(((1u32 << 5u32) | (1u32 << 1u32)) & 0x0fff_ffffu32 == (1u32 << 5u32) | (1u32 << 1u32)) by (bit_vector);
        },
        Feature::All => {
            assert(0x0fff_ffffu32 & 0x0fff_ffffu32 == 0x0fff_ffffu32) by (bit_vector);
        },
        _ => {
            lemma_feature_is_one_bit(f);
            let k = f.bit_index().unwrap();
            assert((1u32 << k) & a == 1u32 << k) by (bit_vector)
                requires
                    a == 0x0fff_ffffu32,
                    k < 28,
            ;
        },
    }
}

/// How many variants `Feature` has.
pub const FEATURE_VARIANTS: usize = 31;

/// The feature at `position` in the order the variants are declared.
pub open spec fn declared_feature(position: int) -> Option<Feature> {
    if position == 0 {
        Some(Feature::NoFeature)
    } else if position == 1 {
        Some(Feature::Atomics)
    } else if position == 2 {
        Some(Feature::MutableGlobals)
    } else if position == 3 {
        Some(Feature::TruncSat)
    } else if position == 4 {
        Some(Feature::Simd)
    } else if position == 5 {
        Some(Feature::BulkMemory)
    } else if position == 6 {
        Some(Feature::SignExt)
    } else if position == 7 {
        Some(Feature::ExceptionHandling)
    } else if position == 8 {
        Some(Feature::TailCall)
    } else if position == 9 {
        Some(Feature::ReferenceTypes)
    } else if position == 10 {
        Some(Feature::Multivalue)
    } else if position == 11 {
        Some(Feature::Gc)
    } else if position == 12 {
        Some(Feature::Memory64)
    } else if position == 13 {
        Some(Feature::RelaxedSimd)
    } else if position == 14 {
        Some(Feature::ExtendedConst)
    } else if position == 15 {
        Some(Feature::Strings)
    } else if position == 16 {
        Some(Feature::MultiMemory)
    } else if position == 17 {
        Some(Feature::StackSwitching)
    } else if position == 18 {
        Some(Feature::SharedEverything)
    } else if position == 19 {
        Some(Feature::Fp16)
    } else if position == 20 {
        Some(Feature::BulkMemoryOpt)
    } else if position == 21 {
        Some(Feature::CallIndirectOverlong)
    } else if position == 22 {
        Some(Feature::CustomDescriptors)
    } else if position == 23 {
        Some(Feature::AcquireReleaseAtomics)
    } else if position == 24 {
        Some(Feature::CustomPageSizes)
    } else if position == 25 {
        Some(Feature::Multibyte)
    } else if position == 26 {
        Some(Feature::WideArithmetic)
    } else if position == 27 {
        Some(Feature::CompactImports)
    } else if position == 28 {
        Some(Feature::RelaxedAtomics)
    } else if position == 29 {
        Some(Feature::Default)
    } else if position == 30 {
        Some(Feature::All)
    } else {
        None
    }
}

impl Feature {
    /// The position of the variant in the order the variants are declared.
    pub open spec fn position(self) -> int {
        match self {
            Feature::NoFeature => 0,
            Feature::Atomics => 1,
            Feature::MutableGlobals => 2,
            Feature::TruncSat => 3,
            Feature::Simd => 4,
            Feature::BulkMemory => 5,
            Feature::SignExt => 6,
            Feature::ExceptionHandling => 7,
            Feature::TailCall => 8,
            Feature::ReferenceTypes => 9,
            Feature::Multivalue => 10,
            Feature::Gc => 11,
            Feature::Memory64 => 12,
            Feature::RelaxedSimd => 13,
            Feature::ExtendedConst => 14,
            Feature::Strings => 15,
            Feature::MultiMemory => 16,
            Feature::StackSwitching => 17,
            Feature::SharedEverything => 18,
            Feature::Fp16 => 19,
            Feature::BulkMemoryOpt => 20,
            Feature::CallIndirectOverlong => 21,
            Feature::CustomDescriptors => 22,
            Feature::AcquireReleaseAtomics => 23,
            Feature::CustomPageSizes => 24,
            Feature::Multibyte => 25,
            Feature::WideArithmetic => 26,
            Feature::CompactImports => 27,
            Feature::RelaxedAtomics => 28,
            Feature::Default => 29,
            Feature::All => 30,
        }
    }
}

/// Each feature is at its own position, and each position below
/// `FEATURE_VARIANTS` holds the feature whose position it is.
pub proof fn lemma_feature_position(feature: Feature, position: int)
    ensures
        0 <= feature.position() < FEATURE_VARIANTS,
        declared_feature(feature.position()) == Some(feature),
        0 <= position < FEATURE_VARIANTS ==> declared_feature(position) is Some && declared_feature(
            position,
        ).unwrap().position() == position,
{
}

fn feature_at_position(position: usize) -> (feature: Feature)
    requires
        position < FEATURE_VARIANTS,
    ensures
        declared_feature(position as int) == Some(feature),
{
    match position {
        0 => Feature::NoFeature,
        1 => Feature::Atomics,
        2 => Feature::MutableGlobals,
        3 => Feature::TruncSat,
        4 => Feature::Simd,
        5 => Feature::BulkMemory,
        6 => Feature::SignExt,
        7 => Feature::ExceptionHandling,
        8 => Feature::TailCall,
        9 => Feature::ReferenceTypes,
        10 => Feature::Multivalue,
        11 => Feature::Gc,
        12 => Feature::Memory64,
        13 => Feature::RelaxedSimd,
        14 => Feature::ExtendedConst,
        15 => Feature::Strings,
        16 => Feature::MultiMemory,
        17 => Feature::StackSwitching,
        18 => Feature::SharedEverything,
        19 => Feature::Fp16,
        20 => Feature::BulkMemoryOpt,
        21 => Feature::CallIndirectOverlong,
        22 => Feature::CustomDescriptors,
        23 => Feature::AcquireReleaseAtomics,
        24 => Feature::CustomPageSizes,
        25 => Feature::Multibyte,
        26 => Feature::WideArithmetic,
        27 => Feature::CompactImports,
        28 => Feature::RelaxedAtomics,
        29 => Feature::Default,
        _ => Feature::All,
    }
}

impl Feature {
    /// Every variant, once each, in the order they are declared.
    pub fn all() -> (features: Vec<Feature>)
        ensures
            features@.len() == FEATURE_VARIANTS,
            forall|i: int| 0 <= i < FEATURE_VARIANTS ==> declared_feature(i) == Some(#[trigger] features@[i]),
            forall|feature: Feature| #[trigger] features@.contains(feature),
            features@.no_duplicates(),
    {
        let mut features: Vec<Feature> = Vec::new();
        let mut i: usize = 0;
        while i < FEATURE_VARIANTS
            invariant
                i <= FEATURE_VARIANTS,
                features@.len() == i,
                forall|j: int| 0 <= j < i ==> declared_feature(j) == Some(#[trigger] features@[j]),
            decreases FEATURE_VARIANTS - i,
        {
            features.push(feature_at_position(i));
            i = i + 1;
        }
        assert forall|feature: Feature| #[trigger] features@.contains(feature) by {
            lemma_feature_position(feature, feature.position());
            assert(features@[feature.position()] == feature);
        }
        assert forall|i: int, j: int|
            0 <= i < features@.len() && 0 <= j < features@.len() && i != j implies features@[i]
            != features@[j] by {
            lemma_feature_position(features@[i], i);
            lemma_feature_position(features@[j], j);
        }
        features
    }
}

} // verus!
