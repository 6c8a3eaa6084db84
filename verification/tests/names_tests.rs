use wasm_opt::base::Feature as BaseFeature;
use wasm_opt::ctor_eval::{join_names, read_method, write_method, ReadMethod, WriteMethod};
use wasm_opt::api::FileType;
use wasm_opt::features::{Feature, ParseFeatureError};
use wasm_opt::passes::Pass;
use wasm_opt::run::convert_feature;

#[test]
fn pass_names_are_binaryens() {
    assert_eq!(Pass::AlignmentLowering.name(), "alignment-lowering");
    assert_eq!(Pass::Dae2.name(), "dae2");
    assert_eq!(Pass::DeNan.name(), "denan");
    assert_eq!(Pass::Nm.name(), "nm");
    assert_eq!(Pass::RecorderLocals.name(), "reorder-locals");
    assert_eq!(Pass::StripTargetFeatuers.name(), "strip-target-features");
    assert_eq!(
        Pass::MultiMemoryLoweringWithBoundsChecks.name(),
        "multi-memory-lowering-with-bounds-checks"
    );
    assert_eq!(Pass::Vacuum.name(), "vacuum");
}

#[test]
fn similar_passes_have_different_names() {
    assert_ne!(Pass::Strip.name(), Pass::StripDebug.name());
    assert_ne!(Pass::Dae.name(), Pass::Dce.name());
    assert_ne!(Pass::Memory64Lowering.name(), Pass::Table64Lowering.name());
}

#[test]
fn features_parse_from_their_names() {
    assert_eq!("threads".parse::<Feature>(), Ok(Feature::Atomics));
    assert_eq!(Feature::from_name("nontrapping-float-to-int"), Ok(Feature::TruncSat));
    assert_eq!(Feature::from_name("multimemory"), Ok(Feature::MultiMemory));
    assert_eq!(Feature::from_name("relaxed-atomics"), Ok(Feature::RelaxedAtomics));
    assert_eq!(Feature::from_name("multi-memory"), Err(ParseFeatureError::VariantNotFound));
    assert_eq!(Feature::from_name("mvp"), Err(ParseFeatureError::VariantNotFound));
    assert_eq!(Feature::from_name("all"), Err(ParseFeatureError::VariantNotFound));
    assert_eq!(Feature::from_name(""), Err(ParseFeatureError::VariantNotFound));
    assert_eq!(Feature::from_name("Threads"), Err(ParseFeatureError::VariantNotFound));
}

#[test]
fn feature_bits_are_binaryens() {
    assert_eq!(BaseFeature::NoFeature.bits(), 0);
    assert_eq!(BaseFeature::Atomics.bits(), 1);
    assert_eq!(BaseFeature::SignExt.bits(), 32);
    assert_eq!(BaseFeature::RelaxedAtomics.bits(), 1 << 27);
    assert_eq!(BaseFeature::Default.bits(), BaseFeature::SignExt.bits() | BaseFeature::MutableGlobals.bits());
    assert_eq!(BaseFeature::All.bits(), (1 << 28) - 1);
    assert_eq!(BaseFeature::Gc.bits() & BaseFeature::Strings.bits(), 0);
}

#[test]
fn features_convert_by_name() {
    assert_eq!(convert_feature(&Feature::Mvp).bits(), 0);
    assert_eq!(convert_feature(&Feature::NoFeature).bits(), 0);
    assert_eq!(convert_feature(&Feature::Simd).bits(), 1 << 3);
    assert_eq!(convert_feature(&Feature::Default).bits(), 0x22);
    assert_eq!(convert_feature(&Feature::All).bits(), 0x0fff_ffff);
}

#[test]
fn names_are_joined_with_commas() {
    assert_eq!(join_names(&vec![]), "");
    assert_eq!(join_names(&vec!["a".to_string()]), "a");
    assert_eq!(join_names(&vec!["a".to_string(), "bc".to_string(), "".to_string()]), "a,bc,");
}

#[test]
fn file_types_choose_the_calls() {
    assert_eq!(read_method(FileType::Wasm), ReadMethod::Binary);
    assert_eq!(read_method(FileType::Wat), ReadMethod::Text);
    assert_eq!(read_method(FileType::Any), ReadMethod::Detect);
    assert_eq!(write_method(FileType::Wasm, FileType::Wat), WriteMethod::Binary);
    assert_eq!(write_method(FileType::Wat, FileType::Wasm), WriteMethod::Text);
    assert_eq!(write_method(FileType::Any, FileType::Wat), WriteMethod::Text);
    assert_eq!(write_method(FileType::Any, FileType::Wasm), WriteMethod::Binary);
    assert_eq!(write_method(FileType::Any, FileType::Any), WriteMethod::Binary);
}

#[test]
fn joined_names_cut_back_at_their_commas() {
    let names = vec!["test1".to_string(), "test2".to_string(), "".to_string(), "x".to_string()];
    let list = join_names(&names);
    let pieces: Vec<String> = list.split(',').map(|piece| piece.to_string()).collect();
    assert_eq!(pieces, names);
}

#[test]
fn all_passes_are_listed_once_in_order() {
    let passes = Pass::all();
    assert_eq!(passes.len(), 172);
    assert_eq!(passes[0], Pass::AlignmentLowering);
    assert_eq!(passes[3], Pass::Dae);
    assert_eq!(passes[171], Pass::Vacuum);
    let names: std::collections::HashSet<&str> = passes.iter().map(|pass| pass.name()).collect();
    assert_eq!(names.len(), 172);
}

#[test]
fn all_features_are_listed_once_in_order() {
    let features = BaseFeature::all();
    assert_eq!(features.len(), 31);
    assert_eq!(features[0].bits(), 0);
    assert_eq!(features[1].bits(), BaseFeature::Atomics.bits());
    assert_eq!(features[28].bits(), BaseFeature::RelaxedAtomics.bits());
    assert_eq!(features[29].bits(), BaseFeature::Default.bits());
    assert_eq!(features[30].bits(), BaseFeature::All.bits());
    let bits: std::collections::HashSet<u32> = features.iter().map(|f| f.bits()).collect();
    assert_eq!(bits.len(), 31);
}
