use vstd::prelude::*;

use crate::features::Feature;

verus! {

/// The format of a wasm module on disk.
#[derive(Copy, Clone, Debug, PartialEq, Eq, Structural)]
pub enum FileType {
    /// The binary format, `.wasm`.
    Wasm,
    /// The text format, `.wat`.
    Wat,
    /// Either: detect on read.
    Any,
}

/// Options for reading a wasm module.
#[derive(Copy, Clone, Debug)]
pub struct ReaderOptions {
    /// The format of the input.
    ///
    /// Default: [`FileType::Any`].
    pub file_type: FileType,
    /// Keep the type order of the input module.
    ///
    /// This corresponds to the `--preserve-type-order` argument. Unless it is
    /// set, the type order of the module as it was read is discarded.
    ///
    /// Default: `false`.
    pub preserve_type_order: bool,
}

impl Default for ReaderOptions {
    fn default() -> (options: ReaderOptions)
        ensures
            options.file_type == FileType::Any,
            !options.preserve_type_order,
    {
        ReaderOptions { file_type: FileType::Any, preserve_type_order: false }
    }
}

/// Options for writing a wasm module.
#[derive(Copy, Clone, Debug)]
pub struct WriterOptions {
    /// The format of the output.
    ///
    /// [`FileType::Any`] writes the format the input was declared in, and the
    /// binary format when that was [`FileType::Any`] too.
    ///
    /// Default: [`FileType::Wasm`].
    pub file_type: FileType,
}

impl Default for WriterOptions {
    fn default() -> (options: WriterOptions)
        ensures
            options.file_type == FileType::Wasm,
    {
        WriterOptions { file_type: FileType::Wasm }
    }
}

/// The features a module starts from, before the ones named one by one.
#[derive(Copy, Clone, Debug, PartialEq, Eq, Structural)]
pub enum FeatureBaseline {
    /// Binaryen's default features, [`Feature::Default`].
    Default,
    /// Only the MVP; every feature not enabled by name is disabled.
    MvpOnly,
    /// Every feature.
    All,
}

/// Which wasm [`Feature`]s to enable and disable.
///
/// A feature named in `enabled` is turned on and a feature named in
/// `disabled` is turned off, whatever the baseline says; one named in both
/// is turned off.
#[derive(Clone, Debug)]
pub struct Features {
    /// The features to start from.
    ///
    /// Default: [`FeatureBaseline::Default`].
    pub baseline: FeatureBaseline,
    /// Features to enable.
    pub enabled: Vec<Feature>,
    /// Features to disable.
    pub disabled: Vec<Feature>,
}

impl Default for Features {
    fn default() -> (features: Features)
        ensures
            features.baseline == FeatureBaseline::Default,
            features.enabled@ == Seq::<Feature>::empty(),
            features.disabled@ == Seq::<Feature>::empty(),
    {
        Features { baseline: FeatureBaseline::Default, enabled: Vec::new(), disabled: Vec::new() }
    }
}

} // verus!
