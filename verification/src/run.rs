use vstd::prelude::*;

use crate::api::{FeatureBaseline, Features};
use crate::base::{lemma_feature_bits_disjoint, Feature as BaseFeature};
use crate::features::{command_line_name, Feature};

verus! {

/// The Binaryen feature that a [`Feature`] stands for.
pub open spec fn spec_convert_feature(feature: Feature) -> BaseFeature {
    match feature {
        Feature::NoFeature => BaseFeature::NoFeature,
        Feature::Mvp => BaseFeature::NoFeature,
        Feature::Default => BaseFeature::Default,
        Feature::All => BaseFeature::All,
        Feature::Atomics => BaseFeature::Atomics,
        Feature::MutableGlobals => BaseFeature::MutableGlobals,
        Feature::TruncSat => BaseFeature::TruncSat,
        Feature::Simd => BaseFeature::Simd,
        Feature::BulkMemory => BaseFeature::BulkMemory,
        Feature::SignExt => BaseFeature::SignExt,
        Feature::ExceptionHandling => BaseFeature::ExceptionHandling,
        Feature::TailCall => BaseFeature::TailCall,
        Feature::ReferenceTypes => BaseFeature::ReferenceTypes,
        Feature::Multivalue => BaseFeature::Multivalue,
        Feature::Gc => BaseFeature::Gc,
        Feature::Memory64 => BaseFeature::Memory64,
        Feature::RelaxedSimd => BaseFeature::RelaxedSimd,
        Feature::ExtendedConst => BaseFeature::ExtendedConst,
        Feature::Strings => BaseFeature::Strings,
        Feature::MultiMemory => BaseFeature::MultiMemory,
        Feature::StackSwitching => BaseFeature::StackSwitching,
        Feature::SharedEverything => BaseFeature::SharedEverything,
        Feature::Fp16 => BaseFeature::Fp16,
        Feature::BulkMemoryOpt => BaseFeature::BulkMemoryOpt,
        Feature::CallIndirectOverlong => BaseFeature::CallIndirectOverlong,
        Feature::CustomDescriptors => BaseFeature::CustomDescriptors,
        Feature::AcquireReleaseAtomics => BaseFeature::AcquireReleaseAtomics,
        Feature::CustomPageSizes => BaseFeature::CustomPageSizes,
        Feature::Multibyte => BaseFeature::Multibyte,
        Feature::WideArithmetic => BaseFeature::WideArithmetic,
        Feature::CompactImports => BaseFeature::CompactImports,
        Feature::RelaxedAtomics => BaseFeature::RelaxedAtomics,
    }
}

/// Converts a [`Feature`] to the Binaryen feature it stands for.
pub fn convert_feature(feature: &Feature) -> (base: BaseFeature)
    ensures
        base == spec_convert_feature(*feature),
{
    match feature {
        Feature::NoFeature => BaseFeature::NoFeature,
        Feature::Mvp => BaseFeature::NoFeature,
        Feature::Default => BaseFeature::Default,
        Feature::All => BaseFeature::All,
        Feature::Atomics => BaseFeature::Atomics,
        Feature::MutableGlobals => BaseFeature::MutableGlobals,
        Feature::TruncSat => BaseFeature::TruncSat,
        Feature::Simd => BaseFeature::Simd,
        Feature::BulkMemory => BaseFeature::BulkMemory,
        Feature::SignExt => BaseFeature::SignExt,
        Feature::ExceptionHandling => BaseFeature::ExceptionHandling,
        Feature::TailCall => BaseFeature::TailCall,
        Feature::ReferenceTypes => BaseFeature::ReferenceTypes,
        Feature::Multivalue => BaseFeature::Multivalue,
        Feature::Gc => BaseFeature::Gc,
        Feature::Memory64 => BaseFeature::Memory64,
        Feature::RelaxedSimd => BaseFeature::RelaxedSimd,
        Feature::ExtendedConst => BaseFeature::ExtendedConst,
        Feature::Strings => BaseFeature::Strings,
        Feature::MultiMemory => BaseFeature::MultiMemory,
        Feature::StackSwitching => BaseFeature::StackSwitching,
        Feature::SharedEverything => BaseFeature::SharedEverything,
        Feature::Fp16 => BaseFeature::Fp16,
        Feature::BulkMemoryOpt => BaseFeature::BulkMemoryOpt,
        Feature::CallIndirectOverlong => BaseFeature::CallIndirectOverlong,
        Feature::CustomDescriptors => BaseFeature::CustomDescriptors,
        Feature::AcquireReleaseAtomics => BaseFeature::AcquireReleaseAtomics,
        Feature::CustomPageSizes => BaseFeature::CustomPageSizes,
        Feature::Multibyte => BaseFeature::Multibyte,
        Feature::WideArithmetic => BaseFeature::WideArithmetic,
        Feature::CompactImports => BaseFeature::CompactImports,
        Feature::RelaxedAtomics => BaseFeature::RelaxedAtomics,
    }
}

/// The feature bits Binaryen gives each feature of the API, by the feature's
/// name: `threads` is bit 0, `simd` bit 3, `bulk-memory` bit 4, and so on.
pub open spec fn binaryen_feature_bits(feature: Feature) -> u32 {
    match feature {
        Feature::NoFeature => 0,
        Feature::Mvp => 0,
        Feature::Atomics => 1u32 << 0u32,
        Feature::MutableGlobals => 1u32 << 1u32,
        Feature::TruncSat => 1u32 << 2u32,
        Feature::Simd => 1u32 << 3u32,
        Feature::BulkMemory => 1u32 << 4u32,
        Feature::SignExt => 1u32 << 5u32,
        Feature::ExceptionHandling => 1u32 << 6u32,
        Feature::TailCall => 1u32 << 7u32,
        Feature::ReferenceTypes => 1u32 << 8u32,
        Feature::Multivalue => 1u32 << 9u32,
        Feature::Gc => 1u32 << 10u32,
        Feature::Memory64 => 1u32 << 11u32,
        Feature::RelaxedSimd => 1u32 << 12u32,
        Feature::ExtendedConst => 1u32 << 13u32,
        Feature::Strings => 1u32 << 14u32,
        Feature::MultiMemory => 1u32 << 15u32,
        Feature::StackSwitching => 1u32 << 16u32,
        Feature::SharedEverything => 1u32 << 17u32,
        Feature::Fp16 => 1u32 << 18u32,
        Feature::BulkMemoryOpt => 1u32 << 19u32,
        Feature::CallIndirectOverlong => 1u32 << 20u32,
        Feature::CustomDescriptors => 1u32 << 21u32,
        Feature::AcquireReleaseAtomics => 1u32 << 22u32,
        Feature::CustomPageSizes => 1u32 << 23u32,
        Feature::Multibyte => 1u32 << 24u32,
        Feature::WideArithmetic => 1u32 << 25u32,
        Feature::CompactImports => 1u32 << 26u32,
        Feature::RelaxedAtomics => 1u32 << 27u32,
        Feature::Default => (1u32 << 5u32) | (1u32 << 1u32),
        Feature::All => 0x0fff_ffff,
    }
}

/// Each feature converts to the Binaryen feature of the same name: its bits
/// are the ones Binaryen gives that name. A proper feature is one bit, and
/// distinct proper features are distinct bits.
pub proof fn lemma_convert_feature_keeps_the_name(feature: Feature, other: Feature)
    ensures
        spec_convert_feature(feature).spec_bits() == binaryen_feature_bits(feature),
        spec_convert_feature(feature).bit_index() is Some <==> command_line_name(feature) is Some,
        command_line_name(feature) is Some && command_line_name(other) is Some && feature != other
            ==> spec_convert_feature(feature).spec_bits() & spec_convert_feature(other).spec_bits() == 0,
{
    if command_line_name(feature) is Some && command_line_name(other) is Some && feature != other {
        lemma_feature_bits_disjoint(spec_convert_feature(feature), spec_convert_feature(other));
    }
}

/// The union of the bits of the features in `features`.
pub open spec fn feature_mask(features: Seq<Feature>) -> u32
    decreases features.len(),
{
    if features.len() == 0 {
        0
    } else {
        feature_mask(features.drop_last()) | spec_convert_feature(features.last()).spec_bits()
    }
}

/// The features that the baseline enables.
pub open spec fn baseline_enabled(baseline: FeatureBaseline) -> u32 {
    match baseline {
        FeatureBaseline::Default => BaseFeature::Default.spec_bits(),
        FeatureBaseline::MvpOnly => 0,
        FeatureBaseline::All => BaseFeature::All.spec_bits(),
    }
}

/// The features that the baseline disables.
pub open spec fn baseline_disabled(baseline: FeatureBaseline) -> u32 {
    match baseline {
        FeatureBaseline::MvpOnly => BaseFeature::All.spec_bits(),
        _ => 0,
    }
}

/// The Binaryen feature sets to enable and to disable on a module, as
/// `(enabled, disabled)`.
///
/// The features named in `enabled` are added to the enabled set and taken out
/// of the disabled set; then those named in `disabled` are taken out of the
/// enabled set and added to the disabled set.
pub open spec fn spec_feature_sets(features: Features) -> (u32, u32) {
    let on = feature_mask(features.enabled@);
    let off = feature_mask(features.disabled@);
    (
        (baseline_enabled(features.baseline) | on) & !off,
        (baseline_disabled(features.baseline) & !on) | off,
    )
}

proof fn lemma_nothing_set(a: u32)
    ensures
        a | 0 == a,
        a & !0u32 == a,
{
    assert(a | 0 == a) by (bit_vector);
    assert(a & !0u32 == a) by (bit_vector);
}

proof fn lemma_set_steps(a: u32, b: u32, m: u32, f: u32)
    ensures
        (a | m) | f == a | (m | f),
        (b & !m) & !f == b & !(m | f),
        (a & !m) & !f == a & !(m | f),
        (b | m) | f == b | (m | f),
{
    assert((a | m) | f == a | (m | f)) by (bit_vector);
    assert((b & !m) & !f == b & !(m | f)) by (bit_vector);
    assert((a & !m) & !f == a & !(m | f)) by (bit_vector);
    assert((b | m) | f == b | (m | f)) by (bit_vector);
}

/// Converts [`Features`] into the feature sets that Binaryen enables and
/// disables on a module, as `(enabled, disabled)` bit sets.
pub fn convert_feature_sets(features: &Features) -> (sets: (u32, u32))
    ensures
        sets == spec_feature_sets(*features),
{
    let mut enabled: u32;
    let mut disabled: u32;
    match features.baseline {
        FeatureBaseline::Default => {
            enabled = BaseFeature::Default.bits();
            disabled = 0;
        },
        FeatureBaseline::MvpOnly => {
            enabled = 0;
            disabled = BaseFeature::All.bits();
        },
        FeatureBaseline::All => {
            enabled = BaseFeature::All.bits();
            disabled = 0;
        },
    }
    let ghost e0 = enabled;
    let ghost d0 = disabled;
    let ghost on = features.enabled@;
    proof {
        assert(feature_mask(on.take(0)) == 0);
        lemma_nothing_set(e0);
        lemma_nothing_set(d0);
    }
    let mut i: usize = 0;
    while i < features.enabled.len()
        invariant
            i <= on.len(),
            on == features.enabled@,
            enabled == e0 | feature_mask(on.take(i as int)),
            disabled == d0 & !feature_mask(on.take(i as int)),
        decreases on.len() - i,
    {
        let bits = convert_feature(&features.enabled[i]).bits();
        proof {
            assert(on.take(i + 1).drop_last() =~= on.take(i as int));
            lemma_set_steps(e0, d0, feature_mask(on.take(i as int)), bits);
        }
        enabled = enabled | bits;
        disabled = disabled & !bits;
        i = i + 1;
    }
    assert(on.take(i as int) =~= on);
    let ghost e1 = enabled;
    let ghost d1 = disabled;
    let ghost off = features.disabled@;
    proof {
        assert(feature_mask(off.take(0)) == 0);
        lemma_nothing_set(e1);
        lemma_nothing_set(d1);
    }
    let mut j: usize = 0;
    while j < features.disabled.len()
        invariant
            j <= off.len(),
            off == features.disabled@,
            enabled == e1 & !feature_mask(off.take(j as int)),
            disabled == d1 | feature_mask(off.take(j as int)),
        decreases off.len() - j,
    {
        let bits = convert_feature(&features.disabled[j]).bits();
        proof {
            assert(off.take(j + 1).drop_last() =~= off.take(j as int));
            lemma_set_steps(e1, d1, feature_mask(off.take(j as int)), bits);
        }
        enabled = enabled & !bits;
        disabled = disabled | bits;
        j = j + 1;
    }
    assert(off.take(j as int) =~= off);
    (enabled, disabled)
}

proof fn lemma_mask_holds(features: Seq<Feature>, f: Feature)
    requires
        features.contains(f),
    ensures
        feature_mask(features) & spec_convert_feature(f).spec_bits() == spec_convert_feature(f).spec_bits(),
    decreases features.len(),
{
    let b = spec_convert_feature(f).spec_bits();
    let rest = features.drop_last();
    let c = spec_convert_feature(features.last()).spec_bits();
    let m = feature_mask(rest);
    if features.last() == f {
        assert((m | b) & b == b) by (bit_vector);
    } else {
        let i = choose|i: int| 0 <= i < features.len() && features[i] == f;
        assert(rest[i] == f);
        lemma_mask_holds(rest, f);
        assert((m | c) & b == b) by (bit_vector)
            requires
                m & b == b,
        ;
    }
}

/// A feature named in `disabled` ends up disabled and not enabled.
pub proof fn lemma_disabled_feature_is_off(features: Features, f: Feature)
    requires
        features.disabled@.contains(f),
    ensures
        spec_feature_sets(features).0 & spec_convert_feature(f).spec_bits() == 0,
        spec_feature_sets(features).1 & spec_convert_feature(f).spec_bits() == spec_convert_feature(f).spec_bits(),
{
    let b = spec_convert_feature(f).spec_bits();
    let on = feature_mask(features.enabled@);
    let off = feature_mask(features.disabled@);
    let e = baseline_enabled(features.baseline);
    let d = baseline_disabled(features.baseline);
    lemma_mask_holds(features.disabled@, f);
    assert(((e | on) & !off) & b == 0 && ((d & !on) | off) & b == b) by (bit_vector)
        requires
            off & b == b,
    ;
}

/// A feature named in `enabled` ends up enabled and not disabled, unless a
/// feature named in `disabled` shares a bit with it.
pub proof fn lemma_enabled_feature_is_on(features: Features, f: Feature)
    requires
        features.enabled@.contains(f),
        feature_mask(features.disabled@) & spec_convert_feature(f).spec_bits() == 0,
    ensures
        spec_feature_sets(features).0 & spec_convert_feature(f).spec_bits() == spec_convert_feature(f).spec_bits(),
        spec_feature_sets(features).1 & spec_convert_feature(f).spec_bits() == 0,
{
    let b = spec_convert_feature(f).spec_bits();
    let on = feature_mask(features.enabled@);
    let off = feature_mask(features.disabled@);
    let e = baseline_enabled(features.baseline);
    let d = baseline_disabled(features.baseline);
    lemma_mask_holds(features.enabled@, f);
    assert(((e | on) & !off) & b == b && ((d & !on) | off) & b == 0) by (bit_vector)
        requires
            on & b == b,
            off & b == 0,
    ;
}

/// With no feature named one by one, the baseline alone decides: `Default`
/// enables `SignExt` and `MutableGlobals` and disables nothing, `MvpOnly`
/// enables nothing and disables every feature, and `All` enables every
/// feature and disables nothing.
pub proof fn lemma_baselines(features: Features)
    requires
        features.enabled@.len() == 0,
        features.disabled@.len() == 0,
    ensures
        features.baseline == FeatureBaseline::Default ==> spec_feature_sets(features) == (
            BaseFeature::SignExt.spec_bits() | BaseFeature::MutableGlobals.spec_bits(),
            0u32,
        ),
        features.baseline == FeatureBaseline::MvpOnly ==> spec_feature_sets(features) == (
            0u32,
            0x0fff_ffffu32,
        ),
        features.baseline == FeatureBaseline::All ==> spec_feature_sets(features) == (
            0x0fff_ffffu32,
            0u32,
        ),
{
    let e = baseline_enabled(features.baseline);
    let d = baseline_disabled(features.baseline);
    assert(feature_mask(features.enabled@) == 0);
    assert(feature_mask(features.disabled@) == 0);
    assert((e | 0u32) & !0u32 == e && (d & !0u32) | 0u32 == d) by (bit_vector);
}

} // verus!
