//! An API for `wasm-ctor-eval`, Binaryen's compile-time evaluator.
//!
//! The evaluation reads a module, evaluates some of its exported functions
//! and writes the module back. Each of those steps is work for Binaryen; what
//! this module decides is which step comes next and what it is asked to do.
//! [`CtorEvalOptions::run`] starts a [`CtorEvalRun`], which names one
//! [`CtorEvalAction`] at a time and is told how it went by a
//! [`CtorEvalEvent`], until the action is [`CtorEvalAction::Finish`].

use vstd::prelude::*;

use crate::api::{FeatureBaseline, Features, FileType, ReaderOptions, WriterOptions};
use crate::features::Feature;
use crate::passes::Pass;
use crate::run::{convert_feature_sets, spec_feature_sets};

verus! {

/// An error resulting from the [`CtorEvalOptions::run`] method.
#[derive(Clone, Debug, PartialEq, Eq)]
pub enum CtorEvalError {
    /// The input module did not validate.
    ValidateWasmInput,
    /// The module did not validate after evalling.
    ValidateWasmOutput,
    /// An error occurred while reading the input module.
    Read { source: String },
    /// An error occurred while evaluating the ctors.
    ///
    /// This is what a name in [`CtorEvalOptions::ctors`] that is not an
    /// exported function of the module produces.
    Eval { source: String },
    /// An error occurred while writing the output module.
    Write { source: String },
    /// The input file path represents stdin to Binaryen,
    /// but the API does not support reading stdin.
    InvalidStdinPath,
}

impl CtorEvalError {
    /// The text that describes the error.
    pub open spec fn spec_message(self) -> Seq<char> {
        match self {
            CtorEvalError::ValidateWasmInput => "Failed to validate wasm: error validating input"@,
            CtorEvalError::ValidateWasmOutput => "Failed to validate wasm: error after evalling"@,
            CtorEvalError::Read { .. } => "Failed to read module"@,
            CtorEvalError::Eval { .. } => "Failed to evaluate ctors"@,
            CtorEvalError::Write { .. } => "Failed to write module"@,
            CtorEvalError::InvalidStdinPath => "Refusing to read from stdin"@,
        }
    }

    /// Describes the error, as its `Display` would: the source of a `Read`,
    /// `Eval` or `Write` error is not part of the text.
    pub fn message(&self) -> (message: String)
        ensures
            message@ == self.spec_message(),
    {
        match self {
            CtorEvalError::ValidateWasmInput => "Failed to validate wasm: error validating input".to_owned(),
            CtorEvalError::ValidateWasmOutput => "Failed to validate wasm: error after evalling".to_owned(),
            CtorEvalError::Read { .. } => "Failed to read module".to_owned(),
            CtorEvalError::Eval { .. } => "Failed to evaluate ctors".to_owned(),
            CtorEvalError::Write { .. } => "Failed to write module".to_owned(),
            CtorEvalError::InvalidStdinPath => "Refusing to read from stdin".to_owned(),
        }
    }
}

/// Options for evaluating global constructors at compile time.
///
/// This type declares all the options supported by the `wasm-ctor-eval`
/// command line tool. It can be modified directly or by its builder-pattern
/// methods.
///
/// Call [`CtorEvalOptions::run`] to perform the evaluation.
#[derive(Clone, Debug)]
pub struct CtorEvalOptions {
    /// Options for reading the input wasm module.
    pub reader: ReaderOptions,
    /// Options for writing the evalled wasm module.
    pub writer: WriterOptions,
    /// The set of wasm-features.
    pub features: Features,
    /// The exported functions to evaluate, in order.
    ///
    /// This corresponds to the `--ctors` argument to `wasm-ctor-eval`.
    ///
    /// Evaluation stops at the first one that cannot be evaluated; the
    /// remaining ctors are left alone.
    pub ctors: Vec<String>,
    /// The ctors whose exports are kept even after they are evaluated.
    ///
    /// This corresponds to the `--kept-exports` argument to `wasm-ctor-eval`.
    ///
    /// The exports of the other evaluated ctors are removed from the module.
    /// A kept export is replaced by a function that just returns the value the
    /// original returned.
    pub kept_exports: Vec<String>,
    /// Assume the program reads no external input as it runs.
    ///
    /// This corresponds to the `--ignore-external-input` argument to
    /// `wasm-ctor-eval`.
    ///
    /// When true, environment variables are assumed to be unset, stdin is
    /// assumed to be empty, and `main` is assumed to receive no arguments.
    /// Otherwise reading any of them stops the evaluation.
    ///
    /// Default: `false`.
    pub ignore_external_input: bool,
    /// Emit the names section and debug info.
    ///
    /// This corresponds to the `--debuginfo` argument to `wasm-ctor-eval`.
    ///
    /// Default: `false`.
    pub debug_info: bool,
    /// Do not log the progress of the evaluation to stdout.
    ///
    /// This corresponds to the `--quiet` argument to `wasm-ctor-eval`.
    ///
    /// Unlike the command line tool, this defaults to `true`: a library has no
    /// business writing to stdout unless asked to.
    pub quiet: bool,
    /// How many instructions the evaluation may execute before giving up.
    ///
    /// This has no counterpart in `wasm-ctor-eval`, which can only be stopped
    /// by killing the process. A ctor that runs over the limit fails, the way
    /// one that reads an import does: the ctors evaluated before it keep what
    /// they evaluated, and the ones after it are not attempted.
    ///
    /// The count is over the whole call, not per ctor, so it bounds the time
    /// a run can take.
    ///
    /// Default: `0`, which is no limit.
    pub max_steps: u32,
}

/// How Binaryen is asked to read a module.
#[derive(Copy, Clone, Debug, PartialEq, Eq, Structural)]
pub enum ReadMethod {
    /// `ModuleReader::read_binary`.
    Binary,
    /// `ModuleReader::read_text`.
    Text,
    /// `ModuleReader::read`, which detects the format.
    Detect,
}

/// How Binaryen is asked to write a module.
#[derive(Copy, Clone, Debug, PartialEq, Eq, Structural)]
pub enum WriteMethod {
    /// `ModuleWriter::write_binary`.
    Binary,
    /// `ModuleWriter::write_text`.
    Text,
}

/// The reader call for an input of the given format.
pub open spec fn spec_read_method(file_type: FileType) -> ReadMethod {
    match file_type {
        FileType::Wasm => ReadMethod::Binary,
        FileType::Wat => ReadMethod::Text,
        FileType::Any => ReadMethod::Detect,
    }
}

/// The writer call for the output: the writer's format, or, where that is
/// `Any`, the reader's, with binary for `Any`.
pub open spec fn spec_write_method(writer: FileType, reader: FileType) -> WriteMethod {
    match writer {
        FileType::Wasm => WriteMethod::Binary,
        FileType::Wat => WriteMethod::Text,
        FileType::Any => match reader {
            FileType::Wat => WriteMethod::Text,
            _ => WriteMethod::Binary,
        },
    }
}

/// Chooses the reader call for an input of the given format.
pub fn read_method(file_type: FileType) -> (method: ReadMethod)
    ensures
        method == spec_read_method(file_type),
{
    match file_type {
        FileType::Wasm => ReadMethod::Binary,
        FileType::Wat => ReadMethod::Text,
        FileType::Any => ReadMethod::Detect,
    }
}

/// Chooses the writer call for the output.
pub fn write_method(writer: FileType, reader: FileType) -> (method: WriteMethod)
    ensures
        method == spec_write_method(writer, reader),
{
    match writer {
        FileType::Wasm => WriteMethod::Binary,
        FileType::Wat => WriteMethod::Text,
        FileType::Any => match reader {
            FileType::Any | FileType::Wasm => WriteMethod::Binary,
            FileType::Wat => WriteMethod::Text,
        },
    }
}

/// The names in `names`, each after the previous one and a `sep`.
pub open spec fn joined(names: Seq<Seq<char>>, sep: char) -> Seq<char>
    decreases names.len(),
{
    if names.len() == 0 {
        Seq::empty()
    } else if names.len() == 1 {
        names[0]
    } else {
        joined(names.drop_last(), sep).push(sep) + names.last()
    }
}

/// The text of each string.
pub open spec fn texts(strings: Seq<String>) -> Seq<Seq<char>> {
    strings.map_values(|s: String| s@)
}

/// The pieces of `list` between the `sep`s, as Binaryen cuts a list of names.
pub open spec fn split_at(list: Seq<char>, sep: char) -> Seq<Seq<char>>
    decreases list.len(),
{
    if list.len() == 0 {
        seq![Seq::empty()]
    } else {
        let parts = split_at(list.drop_last(), sep);
        if list.last() == sep {
            parts.push(Seq::empty())
        } else {
            parts.update(parts.len() - 1, parts.last().push(list.last()))
        }
    }
}

proof fn lemma_split_has_a_piece(list: Seq<char>, sep: char)
    ensures
        split_at(list, sep).len() >= 1,
    decreases list.len(),
{
    if list.len() > 0 {
        lemma_split_has_a_piece(list.drop_last(), sep);
    }
}

proof fn lemma_split_appended(list: Seq<char>, piece: Seq<char>, sep: char)
    requires
        !piece.contains(sep),
    ensures
        split_at(list + piece, sep) == split_at(list, sep).update(
            split_at(list, sep).len() - 1,
            split_at(list, sep).last() + piece,
        ),
    decreases piece.len(),
{
    lemma_split_has_a_piece(list, sep);
    let parts = split_at(list, sep);
    if piece.len() == 0 {
        assert(list + piece =~= list);
        assert(parts.last() + piece =~= parts.last());
        assert(parts.update(parts.len() - 1, parts.last()) =~= parts);
    } else {
        let shorter = piece.drop_last();
        assert(!shorter.contains(sep)) by {
            if shorter.contains(sep) {
                let i = choose|i: int| 0 <= i < shorter.len() && shorter[i] == sep;
                assert(piece[i] == sep);
            }
        }
        lemma_split_appended(list, shorter, sep);
        assert((list + piece).drop_last() =~= list + shorter);
        assert(piece.last() != sep) by {
            assert(piece[piece.len() - 1] == piece.last());
        }
        assert((parts.last() + shorter).push(piece.last()) =~= parts.last() + piece);
        let mid = parts.update(parts.len() - 1, parts.last() + shorter);
        assert(mid.update(mid.len() - 1, mid.last().push(piece.last())) =~= parts.update(
            parts.len() - 1,
            parts.last() + piece,
        ));
    }
}

/// Names that hold no `sep` come back whole when their joined list is cut at
/// each of its `sep`s, as `split_at` cuts it.
pub proof fn lemma_joined_names_split_back(names: Seq<Seq<char>>, sep: char)
    requires
        names.len() > 0,
        forall|i: int| 0 <= i < names.len() ==> !(#[trigger] names[i]).contains(sep),
    ensures
        split_at(joined(names, sep), sep) == names,
    decreases names.len(),
{
    if names.len() == 1 {
        lemma_split_appended(Seq::empty(), names[0], sep);
        assert(Seq::<char>::empty() + names[0] =~= names[0]);
        assert(split_at(Seq::empty(), sep).update(0, Seq::<char>::empty() + names[0]) =~= names);
    } else {
        let init = names.drop_last();
        assert forall|i: int| 0 <= i < init.len() implies !(#[trigger] init[i]).contains(sep) by {
            assert(init[i] == names[i]);
        }
        lemma_joined_names_split_back(init, sep);
        let head = joined(init, sep).push(sep);
        assert(head.drop_last() =~= joined(init, sep));
        assert(split_at(head, sep) == init.push(Seq::empty()));
        assert(!names.last().contains(sep)) by {
            assert(names[names.len() - 1] == names.last());
        }
        lemma_split_appended(head, names.last(), sep);
        assert(Seq::<char>::empty() + names.last() =~= names.last());
        assert(init.push(Seq::empty()).update(init.len() as int, Seq::<char>::empty() + names.last()) =~= names);
    }
}

/// Joins names into the comma-separated list that Binaryen takes.
pub fn join_names(names: &Vec<String>) -> (list: String)
    ensures
        list@ == joined(texts(names@), ','),
{
    let mut list = String::new();
    let ghost all = texts(names@);
    proof {
        broadcast use vstd::string::group_string_axioms;
        reveal_strlit(",");
        assert(","@.len() == 1 && ","@[0] == ',');
        assert(","@ =~= seq![',']);
        assert(all.take(0) =~= Seq::<Seq<char>>::empty());
    }
    let mut i: usize = 0;
    while i < names.len()
        invariant
            i <= names.len(),
            all == texts(names@),
            ","@ == seq![','],
            list@ == joined(all.take(i as int), ','),
        decreases names.len() - i,
    {
        proof {
            assert(all.take(i + 1).drop_last() =~= all.take(i as int));
            assert(all.take(i + 1).last() == names@[i as int]@);
        }
        let ghost before = list@;
        if i > 0 {
            list.append(",");
        }
        list.append(names[i].as_str());
        proof {
            if i == 0 {
                assert(all.take(1) =~= seq![names@[0]@]);
            } else {
                assert(list@ =~= before.push(',') + names@[i as int]@);
            }
        }
        i = i + 1;
    }
    proof {
        assert(all.take(names.len() as int) =~= all);
    }
    list
}

/// The passes that `wasm-ctor-eval` runs after evalling, in order.
pub open spec fn spec_cleanup_passes() -> Seq<Pass> {
    seq![
        // The memory may have been flattened for evalling, so pack it again.
        Pass::MemoryPacking,
        Pass::RemoveUnusedNames,
        Pass::Dce,
        Pass::MergeBlocks,
        Pass::Vacuum,
        Pass::RemoveUnusedModuleElements,
    ]
}

/// The passes run after evalling are, by their command-line names,
/// `memory-packing` (the memory may have been flattened for evalling, so it is
/// packed again), then `remove-unused-names`, `dce`, `merge-blocks`, `vacuum`
/// and `remove-unused-module-elements`.
pub proof fn lemma_cleanup_passes_by_name()
    ensures
        spec_cleanup_passes().len() == 6,
        spec_cleanup_passes()[0].spec_name() == "memory-packing"@,
        spec_cleanup_passes()[1].spec_name() == "remove-unused-names"@,
        spec_cleanup_passes()[2].spec_name() == "dce"@,
        spec_cleanup_passes()[3].spec_name() == "merge-blocks"@,
        spec_cleanup_passes()[4].spec_name() == "vacuum"@,
        spec_cleanup_passes()[5].spec_name() == "remove-unused-module-elements"@,
{
}

/// The names of the passes that `wasm-ctor-eval` runs after evalling, in order.
pub fn cleanup_pass_names() -> (names: Vec<&'static str>)
    ensures
        names@.len() == spec_cleanup_passes().len(),
        forall|i: int|
            0 <= i < names@.len() ==> #[trigger] names@[i]@ == spec_cleanup_passes()[i].spec_name(),
{
    let passes = [
        Pass::MemoryPacking,
        Pass::RemoveUnusedNames,
        Pass::Dce,
        Pass::MergeBlocks,
        Pass::Vacuum,
        Pass::RemoveUnusedModuleElements,
    ];
    proof {
        assert(passes@ =~= spec_cleanup_passes());
    }
    let mut names: Vec<&'static str> = Vec::new();
    let mut i: usize = 0;
    while i < 6
        invariant
            i <= 6,
            passes@ == spec_cleanup_passes(),
            names@.len() == i,
            forall|j: int| 0 <= j < i ==> #[trigger] names@[j]@ == passes@[j].spec_name(),
        decreases 6 - i,
    {
        names.push(passes[i].name());
        i = i + 1;
    }
    names
}

/// A path whose text could name the same path as `-`: `-` alone, or `-`
/// followed by a separator (`/`, or `\\` where that separates too).
pub open spec fn could_be_dash(path: Seq<char>) -> bool {
    &&& path.len() > 0
    &&& path[0] == '-'
    &&& (path.len() == 1 || path[1] == '/' || path[1] == '\\')
}

/// A path whose components are those of `-` on every platform, written
/// without `\`: `-`, then only `/` separators and `.` segments, such as `-/`
/// or `-//./`.
pub open spec fn dash_components(path: Seq<char>) -> bool {
    &&& path.len() > 0
    &&& path[0] == '-'
    &&& forall|i: int|
        1 <= i < path.len() ==> #[trigger] path[i] == '/' || (path[i] == '.' && path[i - 1] == '/' && (i + 1
            == path.len() || path[i + 1] == '/'))
}

/// Whether `a` and `b` are the same path: `std::path::Path`'s `==`, which
/// compares the paths' components.
///
/// The contract states that equal texts are the same path, and what it is to
/// be the same path as `-`, whose one component is the normal component `-`.
/// Repeated separators and a trailing one are dropped from the components,
/// and so is a `.` segment that is not the first. A path equal to `-` starts
/// with `-` followed by its end or a separator; for a text without `\` it is
/// equal to `-` exactly when it is `-` followed by `/` separators and `.`
/// segments. Texts with `\` after the `-` depend on whether the platform
/// takes `\` for a separator, and are left unsaid.
#[verifier::external_body]
fn path_eq(a: &str, b: &str) -> (eq: bool)
    ensures
        a@ == b@ ==> eq,
        eq && b@ == "-"@ ==> could_be_dash(a@),
        b@ == "-"@ && !a@.contains('\\') ==> (eq <==> dash_components(a@)),
{
    std::path::Path::new(a) == std::path::Path::new(b)
}

/// What a run needs to know of its options, worked out when it starts.
pub struct CtorEvalPlan {
    /// The module to read.
    pub infile: String,
    /// Where to write the module.
    pub outfile: String,
    /// How to read the module.
    pub read_method: ReadMethod,
    /// The features to enable on the module, as Binaryen feature bits.
    pub enabled_features: u32,
    /// The features to disable on the module, as Binaryen feature bits.
    pub disabled_features: u32,
    /// Keep the type order of the module as it was read.
    pub preserve_type_order: bool,
    /// The ctors to evaluate, comma-separated.
    pub ctors: String,
    /// The exports to keep, comma-separated.
    pub kept_exports: String,
    /// See [`CtorEvalOptions::ignore_external_input`].
    pub ignore_external_input: bool,
    /// See [`CtorEvalOptions::quiet`].
    pub quiet: bool,
    /// See [`CtorEvalOptions::max_steps`].
    pub max_steps: u32,
    /// How to write the module.
    pub write_method: WriteMethod,
    /// Write the names section and debug info.
    pub debug_info: bool,
}

impl CtorEvalPlan {
    /// The plan is the one that `options` give for these files.
    pub open spec fn follows(self, options: CtorEvalOptions, infile: Seq<char>, outfile: Seq<char>) -> bool {
        let sets = spec_feature_sets(options.features);
        &&& self.infile@ == infile
        &&& self.outfile@ == outfile
        &&& self.read_method == spec_read_method(options.reader.file_type)
        &&& self.enabled_features == sets.0
        &&& self.disabled_features == sets.1
        &&& self.preserve_type_order == options.reader.preserve_type_order
        &&& self.ctors@ == joined(texts(options.ctors@), ',')
        &&& self.kept_exports@ == joined(texts(options.kept_exports@), ',')
        &&& self.ignore_external_input == options.ignore_external_input
        &&& self.quiet == options.quiet
        &&& self.max_steps == options.max_steps
        &&& self.write_method == spec_write_method(options.writer.file_type, options.reader.file_type)
        &&& self.debug_info == options.debug_info
    }
}

/// Where a run stands: the step it waits on.
pub enum CtorEvalStage {
    /// Reading the input module.
    ReadInput,
    /// Discarding the type order of the input module.
    ClearTypeIndices,
    /// Validating the input module.
    ValidateInput,
    /// Asking whether the module is one the evaluator can handle.
    CheckCanEval,
    /// Evaluating the ctors.
    EvalCtors,
    /// Checking that each ctor names an exported function, for a module the
    /// evaluator will not touch.
    CheckCtorExports,
    /// Reading the input module again, after evalling left the module in a
    /// state that cannot be written out.
    ReadInputAgain,
    /// Validating the module after evalling.
    ValidateOutput,
    /// Running the cleanup passes.
    RunCleanupPasses,
    /// Writing the output module.
    WriteOutput,
    /// Done, with this result.
    Finished(Result<(), CtorEvalError>),
}

/// A piece of work a run asks for.
#[allow(inconsistent_fields)]
pub enum CtorEvalAction {
    /// Make a new module, apply the feature sets to it, and read `path` into
    /// it with `method`. This module is the one all later actions work on.
    ReadModule { path: String, method: ReadMethod, enabled_features: u32, disabled_features: u32 },
    /// Discard the type order of the module as it was read.
    ClearTypeIndices,
    /// Validate the module.
    Validate,
    /// Ask whether the module is in a shape that ctor evaluation can handle.
    CheckCanEval,
    /// Evaluate the ctors.
    EvalCtors { ctors: String, kept_exports: String, ignore_external_input: bool, quiet: bool, max_steps: u32 },
    /// Check that each of the comma-separated `ctors` is an exported function
    /// of the module, leaving the module as it is.
    CheckCtorExports { ctors: String },
    /// Run the named passes over the module, in order.
    RunPasses { passes: Vec<&'static str> },
    /// Write the module to `path` with `method`.
    WriteModule { path: String, method: WriteMethod, debug_info: bool },
    /// Nothing more: the run is over.
    Finish,
}

/// How a piece of work went.
pub enum CtorEvalEvent {
    /// The module was read, or could not be, with the reader's message.
    ModuleRead(Result<(), String>),
    /// The type order was discarded.
    TypeIndicesCleared,
    /// The module did or did not validate.
    Validated(bool),
    /// Whether the module can be evaluated.
    CanEvalChecked(bool),
    /// The ctors were evaluated: whether the module is left in a state that
    /// can be written out, or the evaluator's error message.
    CtorsEvalled(Result<bool, String>),
    /// Each ctor is an exported function, or the checker's error message for
    /// one that is not.
    CtorExportsChecked(Result<(), String>),
    /// The passes ran.
    PassesRun,
    /// The module was written, or could not be, with the writer's message.
    ModuleWritten(Result<(), String>),
}

/// The stage a run goes to from `stage` on `event`.
///
/// An event that does not answer the stage's action leaves the stage as it is.
pub open spec fn spec_next_stage(plan: CtorEvalPlan, stage: CtorEvalStage, event: CtorEvalEvent) -> CtorEvalStage {
    match (stage, event) {
        (CtorEvalStage::ReadInput, CtorEvalEvent::ModuleRead(Ok(()))) => if plan.preserve_type_order {
            CtorEvalStage::ValidateInput
        } else {
            CtorEvalStage::ClearTypeIndices
        },
        (CtorEvalStage::ReadInput, CtorEvalEvent::ModuleRead(Err(source))) => CtorEvalStage::Finished(
            Err(CtorEvalError::Read { source }),
        ),
        (CtorEvalStage::ClearTypeIndices, CtorEvalEvent::TypeIndicesCleared) => CtorEvalStage::ValidateInput,
        (CtorEvalStage::ValidateInput, CtorEvalEvent::Validated(valid)) => if valid {
            CtorEvalStage::CheckCanEval
        } else {
            CtorEvalStage::Finished(Err(CtorEvalError::ValidateWasmInput))
        },
        // A module the evaluator will not touch at all is written back out
        // unchanged, once its ctors are known to be exported functions.
        (CtorEvalStage::CheckCanEval, CtorEvalEvent::CanEvalChecked(can_eval)) => if can_eval {
            CtorEvalStage::EvalCtors
        } else {
            CtorEvalStage::CheckCtorExports
        },
        (CtorEvalStage::CheckCtorExports, CtorEvalEvent::CtorExportsChecked(Ok(()))) => CtorEvalStage::WriteOutput,
        (CtorEvalStage::CheckCtorExports, CtorEvalEvent::CtorExportsChecked(Err(source))) => CtorEvalStage::Finished(
            Err(CtorEvalError::Eval { source }),
        ),
        (CtorEvalStage::EvalCtors, CtorEvalEvent::CtorsEvalled(Ok(valid_state))) => if valid_state {
            CtorEvalStage::ValidateOutput
        } else {
            CtorEvalStage::ReadInputAgain
        },
        (CtorEvalStage::EvalCtors, CtorEvalEvent::CtorsEvalled(Err(source))) => CtorEvalStage::Finished(
            Err(CtorEvalError::Eval { source }),
        ),
        // As `wasm-ctor-eval` does, the type order is not discarded on this path.
        (CtorEvalStage::ReadInputAgain, CtorEvalEvent::ModuleRead(Ok(()))) => CtorEvalStage::ValidateOutput,
        (CtorEvalStage::ReadInputAgain, CtorEvalEvent::ModuleRead(Err(source))) => CtorEvalStage::Finished(
            Err(CtorEvalError::Read { source }),
        ),
        (CtorEvalStage::ValidateOutput, CtorEvalEvent::Validated(valid)) => if valid {
            CtorEvalStage::RunCleanupPasses
        } else {
            CtorEvalStage::Finished(Err(CtorEvalError::ValidateWasmOutput))
        },
        (CtorEvalStage::RunCleanupPasses, CtorEvalEvent::PassesRun) => CtorEvalStage::WriteOutput,
        (CtorEvalStage::WriteOutput, CtorEvalEvent::ModuleWritten(Ok(()))) => CtorEvalStage::Finished(Ok(())),
        (CtorEvalStage::WriteOutput, CtorEvalEvent::ModuleWritten(Err(source))) => CtorEvalStage::Finished(
            Err(CtorEvalError::Write { source }),
        ),
        (stage, _) => stage,
    }
}

/// The event answers the action of the stage.
pub open spec fn answers(stage: CtorEvalStage, event: CtorEvalEvent) -> bool {
    match stage {
        CtorEvalStage::ReadInput | CtorEvalStage::ReadInputAgain => event is ModuleRead,
        CtorEvalStage::ClearTypeIndices => event is TypeIndicesCleared,
        CtorEvalStage::ValidateInput | CtorEvalStage::ValidateOutput => event is Validated,
        CtorEvalStage::CheckCanEval => event is CanEvalChecked,
        CtorEvalStage::EvalCtors => event is CtorsEvalled,
        CtorEvalStage::CheckCtorExports => event is CtorExportsChecked,
        CtorEvalStage::RunCleanupPasses => event is PassesRun,
        CtorEvalStage::WriteOutput => event is ModuleWritten,
        CtorEvalStage::Finished(_) => false,
    }
}

/// The action a run asks for at `stage`.
pub open spec fn is_stage_action(plan: CtorEvalPlan, stage: CtorEvalStage, action: CtorEvalAction) -> bool {
    match stage {
        CtorEvalStage::ReadInput | CtorEvalStage::ReadInputAgain => action == CtorEvalAction::ReadModule {
            path: plan.infile,
            method: plan.read_method,
            enabled_features: plan.enabled_features,
            disabled_features: plan.disabled_features,
        },
        CtorEvalStage::ClearTypeIndices => action is ClearTypeIndices,
        CtorEvalStage::ValidateInput | CtorEvalStage::ValidateOutput => action is Validate,
        CtorEvalStage::CheckCanEval => action is CheckCanEval,
        CtorEvalStage::EvalCtors => action == CtorEvalAction::EvalCtors {
            ctors: plan.ctors,
            kept_exports: plan.kept_exports,
            ignore_external_input: plan.ignore_external_input,
            quiet: plan.quiet,
            max_steps: plan.max_steps,
        },
        CtorEvalStage::CheckCtorExports => action == CtorEvalAction::CheckCtorExports { ctors: plan.ctors },
        CtorEvalStage::RunCleanupPasses => match action {
            CtorEvalAction::RunPasses { passes } => {
                &&& passes@.len() == spec_cleanup_passes().len()
                &&& forall|i: int|
                    0 <= i < passes@.len() ==> #[trigger] passes@[i]@ == spec_cleanup_passes()[i].spec_name()
            },
            _ => false,
        },
        CtorEvalStage::WriteOutput => action == CtorEvalAction::WriteModule {
            path: plan.outfile,
            method: plan.write_method,
            debug_info: plan.debug_info,
        },
        CtorEvalStage::Finished(_) => action is Finish,
    }
}

/// One ctor evaluation under way.
pub struct CtorEvalRun {
    /// What the options ask of the run.
    pub plan: CtorEvalPlan,
    /// The step the run waits on.
    pub stage: CtorEvalStage,
}

impl CtorEvalRun {
    /// The work the run asks for now.
    pub fn action(&self) -> (action: CtorEvalAction)
        ensures
            is_stage_action(self.plan, self.stage, action),
    {
        match &self.stage {
            CtorEvalStage::ReadInput | CtorEvalStage::ReadInputAgain => CtorEvalAction::ReadModule {
                path: self.plan.infile.clone(),
                method: self.plan.read_method,
                enabled_features: self.plan.enabled_features,
                disabled_features: self.plan.disabled_features,
            },
            CtorEvalStage::ClearTypeIndices => CtorEvalAction::ClearTypeIndices,
            CtorEvalStage::ValidateInput | CtorEvalStage::ValidateOutput => CtorEvalAction::Validate,
            CtorEvalStage::CheckCanEval => CtorEvalAction::CheckCanEval,
            CtorEvalStage::EvalCtors => CtorEvalAction::EvalCtors {
                ctors: self.plan.ctors.clone(),
                kept_exports: self.plan.kept_exports.clone(),
                ignore_external_input: self.plan.ignore_external_input,
                quiet: self.plan.quiet,
                max_steps: self.plan.max_steps,
            },
            CtorEvalStage::CheckCtorExports => CtorEvalAction::CheckCtorExports { ctors: self.plan.ctors.clone() },
            CtorEvalStage::RunCleanupPasses => CtorEvalAction::RunPasses { passes: cleanup_pass_names() },
            CtorEvalStage::WriteOutput => CtorEvalAction::WriteModule {
                path: self.plan.outfile.clone(),
                method: self.plan.write_method,
                debug_info: self.plan.debug_info,
            },
            CtorEvalStage::Finished(_) => CtorEvalAction::Finish,
        }
    }

    /// Takes in how the work the run asked for went.
    pub fn advance(&mut self, event: CtorEvalEvent)
        ensures
            final(self).plan == old(self).plan,
            final(self).stage == spec_next_stage(old(self).plan, old(self).stage, event),
    {
        let mut stage = CtorEvalStage::ReadInput;
        std::mem::swap(&mut stage, &mut self.stage);
        let next = match (stage, event) {
            (CtorEvalStage::ReadInput, CtorEvalEvent::ModuleRead(Ok(()))) => if self.plan.preserve_type_order {
                CtorEvalStage::ValidateInput
            } else {
                CtorEvalStage::ClearTypeIndices
            },
            (CtorEvalStage::ReadInput, CtorEvalEvent::ModuleRead(Err(source))) => CtorEvalStage::Finished(
                Err(CtorEvalError::Read { source }),
            ),
            (CtorEvalStage::ClearTypeIndices, CtorEvalEvent::TypeIndicesCleared) => CtorEvalStage::ValidateInput,
            (CtorEvalStage::ValidateInput, CtorEvalEvent::Validated(valid)) => if valid {
                CtorEvalStage::CheckCanEval
            } else {
                CtorEvalStage::Finished(Err(CtorEvalError::ValidateWasmInput))
            },
            (CtorEvalStage::CheckCanEval, CtorEvalEvent::CanEvalChecked(can_eval)) => if can_eval {
                CtorEvalStage::EvalCtors
            } else {
                CtorEvalStage::CheckCtorExports
            },
            (CtorEvalStage::CheckCtorExports, CtorEvalEvent::CtorExportsChecked(Ok(()))) => CtorEvalStage::WriteOutput,
            (CtorEvalStage::CheckCtorExports, CtorEvalEvent::CtorExportsChecked(Err(source))) => CtorEvalStage::Finished(
                Err(CtorEvalError::Eval { source }),
            ),
            (CtorEvalStage::EvalCtors, CtorEvalEvent::CtorsEvalled(Ok(valid_state))) => if valid_state {
                CtorEvalStage::ValidateOutput
            } else {
                CtorEvalStage::ReadInputAgain
            },
            (CtorEvalStage::EvalCtors, CtorEvalEvent::CtorsEvalled(Err(source))) => CtorEvalStage::Finished(
                Err(CtorEvalError::Eval { source }),
            ),
            (CtorEvalStage::ReadInputAgain, CtorEvalEvent::ModuleRead(Ok(()))) => CtorEvalStage::ValidateOutput,
            (CtorEvalStage::ReadInputAgain, CtorEvalEvent::ModuleRead(Err(source))) => CtorEvalStage::Finished(
                Err(CtorEvalError::Read { source }),
            ),
            (CtorEvalStage::ValidateOutput, CtorEvalEvent::Validated(valid)) => if valid {
                CtorEvalStage::RunCleanupPasses
            } else {
                CtorEvalStage::Finished(Err(CtorEvalError::ValidateWasmOutput))
            },
            (CtorEvalStage::RunCleanupPasses, CtorEvalEvent::PassesRun) => CtorEvalStage::WriteOutput,
            (CtorEvalStage::WriteOutput, CtorEvalEvent::ModuleWritten(Ok(()))) => CtorEvalStage::Finished(Ok(())),
            (CtorEvalStage::WriteOutput, CtorEvalEvent::ModuleWritten(Err(source))) => CtorEvalStage::Finished(
                Err(CtorEvalError::Write { source }),
            ),
            (stage, _) => stage,
        };
        self.stage = next;
    }

    /// The result of the run, once it is finished.
    pub fn outcome(self) -> (outcome: Option<Result<(), CtorEvalError>>)
        ensures
            outcome == (match self.stage {
                CtorEvalStage::Finished(result) => Some(result),
                _ => None,
            }),
    {
        match self.stage {
            CtorEvalStage::Finished(result) => Some(result),
            _ => None,
        }
    }
}

/// How many actions a run at `stage` can still ask for, at most, before it
/// finishes.
pub open spec fn steps_left(stage: CtorEvalStage) -> nat {
    match stage {
        CtorEvalStage::ReadInput => 9,
        CtorEvalStage::ClearTypeIndices => 8,
        CtorEvalStage::ValidateInput => 7,
        CtorEvalStage::CheckCanEval => 6,
        CtorEvalStage::EvalCtors => 5,
        CtorEvalStage::ReadInputAgain => 4,
        CtorEvalStage::ValidateOutput => 3,
        CtorEvalStage::CheckCtorExports => 2,
        CtorEvalStage::RunCleanupPasses => 2,
        CtorEvalStage::WriteOutput => 1,
        CtorEvalStage::Finished(_) => 0,
    }
}

/// The stage a run reaches from `stage` on `events`, taken in order.
pub open spec fn stage_after(plan: CtorEvalPlan, stage: CtorEvalStage, events: Seq<CtorEvalEvent>) -> CtorEvalStage
    decreases events.len(),
{
    if events.len() == 0 {
        stage
    } else {
        stage_after(plan, spec_next_stage(plan, stage, events[0]), events.drop_first())
    }
}

/// Each of `events`, in order, answers the action of the stage the run is at.
pub open spec fn answers_each(plan: CtorEvalPlan, stage: CtorEvalStage, events: Seq<CtorEvalEvent>) -> bool
    decreases events.len(),
{
    events.len() == 0 || (answers(stage, events[0]) && answers_each(
        plan,
        spec_next_stage(plan, stage, events[0]),
        events.drop_first(),
    ))
}

/// Every answer moves a run closer to its end, and an event that does not
/// answer the run's action changes nothing; a finished run stays finished.
pub proof fn lemma_answer_progresses(plan: CtorEvalPlan, stage: CtorEvalStage, event: CtorEvalEvent)
    ensures
        answers(stage, event) ==> steps_left(spec_next_stage(plan, stage, event)) < steps_left(stage),
        !answers(stage, event) ==> spec_next_stage(plan, stage, event) == stage,
        stage is Finished ==> spec_next_stage(plan, stage, event) == stage,
{
}

/// A run asks for at most `steps_left` actions: from its start, at most nine
/// before it finishes.
pub proof fn lemma_run_ends(plan: CtorEvalPlan, stage: CtorEvalStage, events: Seq<CtorEvalEvent>)
    requires
        answers_each(plan, stage, events),
    ensures
        events.len() <= steps_left(stage),
        events.len() == steps_left(stage) ==> stage_after(plan, stage, events) is Finished,
    decreases events.len(),
{
    if events.len() > 0 {
        let next = spec_next_stage(plan, stage, events[0]);
        lemma_answer_progresses(plan, stage, events[0]);
        lemma_run_ends(plan, next, events.drop_first());
    }
}

/// A run only finishes well once the module is written out.
pub proof fn lemma_success_only_after_write(plan: CtorEvalPlan, stage: CtorEvalStage, event: CtorEvalEvent)
    requires
        !(stage is Finished),
        spec_next_stage(plan, stage, event) == CtorEvalStage::Finished(Ok(())),
    ensures
        stage is WriteOutput,
        event == CtorEvalEvent::ModuleWritten(Ok(())),
{
    if let CtorEvalEvent::ModuleWritten(Ok(written)) = event {
        assert(written == ());
    }
}

/// Each error comes from the step that the error names, and a run never
/// finishes on a path to stdin: that is refused before it starts.
pub proof fn lemma_errors_come_from_their_step(
    plan: CtorEvalPlan,
    stage: CtorEvalStage,
    event: CtorEvalEvent,
    error: CtorEvalError,
)
    requires
        !(stage is Finished),
        spec_next_stage(plan, stage, event) == CtorEvalStage::Finished(Err(error)),
    ensures
        error is Read ==> (stage is ReadInput || stage is ReadInputAgain) && event == CtorEvalEvent::ModuleRead(
            Err(error->Read_source),
        ),
        error is ValidateWasmInput ==> stage is ValidateInput && event == CtorEvalEvent::Validated(false),
        error is Eval ==> (stage is EvalCtors && event == CtorEvalEvent::CtorsEvalled(Err(error->Eval_source))) || (
        stage is CheckCtorExports && event == CtorEvalEvent::CtorExportsChecked(Err(error->Eval_source))),
        error is ValidateWasmOutput ==> stage is ValidateOutput && event == CtorEvalEvent::Validated(false),
        error is Write ==> stage is WriteOutput && event == CtorEvalEvent::ModuleWritten(Err(error->Write_source)),
        !(error is InvalidStdinPath),
{
}

/// A ctor that cannot be evaluated is not an error: whatever the evaluator
/// reports short of an error of its own, the run goes on to write a module.
pub proof fn lemma_stopping_early_is_not_an_error(plan: CtorEvalPlan, valid_state: bool)
    ensures
        spec_next_stage(plan, CtorEvalStage::EvalCtors, CtorEvalEvent::CtorsEvalled(Ok(valid_state)))
            == if valid_state {
            CtorEvalStage::ValidateOutput
        } else {
            CtorEvalStage::ReadInputAgain
        },
{
}

/// A module the evaluator will not touch at all is written back out
/// unchanged: nothing is evaluated and no pass runs. A ctor that is not an
/// exported function is still an error.
pub proof fn lemma_unevaluable_module_is_written_unchanged(plan: CtorEvalPlan, source: String)
    ensures
        spec_next_stage(plan, CtorEvalStage::CheckCanEval, CtorEvalEvent::CanEvalChecked(false))
            == CtorEvalStage::CheckCtorExports,
        is_stage_action(plan, CtorEvalStage::CheckCtorExports, CtorEvalAction::CheckCtorExports { ctors: plan.ctors }),
        spec_next_stage(plan, CtorEvalStage::CheckCtorExports, CtorEvalEvent::CtorExportsChecked(Ok(())))
            == CtorEvalStage::WriteOutput,
        spec_next_stage(plan, CtorEvalStage::CheckCtorExports, CtorEvalEvent::CtorExportsChecked(Err(source)))
            == CtorEvalStage::Finished(Err(CtorEvalError::Eval { source })),
{
}

/// The output is written only as the run's last step: whatever the writer
/// reports, the run is then finished.
pub proof fn lemma_write_is_last(plan: CtorEvalPlan, event: CtorEvalEvent)
    requires
        answers(CtorEvalStage::WriteOutput, event),
    ensures
        spec_next_stage(plan, CtorEvalStage::WriteOutput, event) is Finished,
{
}

/// When evalling leaves a module that cannot be written out, the input is read
/// again exactly as the first time, and its type order is then kept.
pub proof fn lemma_reread_forgets_the_evaluation(plan: CtorEvalPlan, action: CtorEvalAction)
    ensures
        is_stage_action(plan, CtorEvalStage::ReadInputAgain, action) == is_stage_action(
            plan,
            CtorEvalStage::ReadInput,
            action,
        ),
        spec_next_stage(plan, CtorEvalStage::ReadInputAgain, CtorEvalEvent::ModuleRead(Ok(())))
            == CtorEvalStage::ValidateOutput,
{
}

/// The type order of the input is discarded unless the options keep it.
pub proof fn lemma_type_order_discarded_unless_kept(plan: CtorEvalPlan)
    ensures
        spec_next_stage(plan, CtorEvalStage::ReadInput, CtorEvalEvent::ModuleRead(Ok(())))
            == if plan.preserve_type_order {
            CtorEvalStage::ValidateInput
        } else {
            CtorEvalStage::ClearTypeIndices
        },
{
}

/// The reader call follows the input's declared format, and the writer call
/// the output's: a writer of type `Wasm` always writes binary and one of type
/// `Wat` always writes text, whatever the reader's type. Only a writer of type
/// `Any` takes the format of the input, and binary when that is `Any` too.
pub proof fn lemma_file_types_choose_the_calls(writer: FileType, reader: FileType)
    ensures
        spec_read_method(FileType::Wasm) == ReadMethod::Binary,
        spec_read_method(FileType::Wat) == ReadMethod::Text,
        spec_read_method(FileType::Any) == ReadMethod::Detect,
        spec_write_method(FileType::Wasm, reader) == WriteMethod::Binary,
        spec_write_method(FileType::Wat, reader) == WriteMethod::Text,
        reader != FileType::Any ==> spec_write_method(FileType::Any, reader) == spec_write_method(reader, writer),
        spec_write_method(FileType::Any, FileType::Any) == WriteMethod::Binary,
{
}

/// Every action of a run started from options `options` carries what the
/// options ask for: the input path and its reader call, the feature sets,
/// the ctors and kept exports joined with commas, the evaluation flags, and
/// the output path, its writer call and the debug-info flag.
pub proof fn lemma_actions_carry_the_options(
    options: CtorEvalOptions,
    infile: Seq<char>,
    outfile: Seq<char>,
    plan: CtorEvalPlan,
    stage: CtorEvalStage,
    action: CtorEvalAction,
)
    requires
        plan.follows(options, infile, outfile),
        is_stage_action(plan, stage, action),
    ensures
        stage is ReadInput || stage is ReadInputAgain ==> (action matches CtorEvalAction::ReadModule {
            path,
            method,
            enabled_features,
            disabled_features,
        } && path@ == infile && (options.reader.file_type == FileType::Wasm ==> method == ReadMethod::Binary)
            && (options.reader.file_type == FileType::Wat ==> method == ReadMethod::Text) && (
        options.reader.file_type == FileType::Any ==> method == ReadMethod::Detect) && (
        enabled_features,
        disabled_features,
        ) == spec_feature_sets(options.features)),
        stage is EvalCtors ==> (action matches CtorEvalAction::EvalCtors {
            ctors,
            kept_exports,
            ignore_external_input,
            quiet,
            max_steps,
        } && ctors@ == joined(texts(options.ctors@), ',') && kept_exports@ == joined(
            texts(options.kept_exports@),
            ',',
        ) && ignore_external_input == options.ignore_external_input && quiet == options.quiet && max_steps
            == options.max_steps),
        stage is CheckCtorExports ==> (action matches CtorEvalAction::CheckCtorExports { ctors } && ctors@
            == joined(texts(options.ctors@), ',')),
        stage is WriteOutput ==> (action matches CtorEvalAction::WriteModule { path, method, debug_info }
            && path@ == outfile && debug_info == options.debug_info && (options.writer.file_type
            == FileType::Wasm ==> method == WriteMethod::Binary) && (options.writer.file_type == FileType::Wat
            ==> method == WriteMethod::Text) && (options.writer.file_type == FileType::Any ==> (method
            == WriteMethod::Text <==> options.reader.file_type == FileType::Wat))),
{
}

/// Whatever the plan, a step that fails finishes the run at once with the
/// error of that step, carrying the failing step's message.
pub proof fn lemma_failures_finish_with_their_error(plan: CtorEvalPlan, source: String)
    ensures
        spec_next_stage(plan, CtorEvalStage::ReadInput, CtorEvalEvent::ModuleRead(Err(source)))
            == CtorEvalStage::Finished(Err(CtorEvalError::Read { source })),
        spec_next_stage(plan, CtorEvalStage::ReadInputAgain, CtorEvalEvent::ModuleRead(Err(source)))
            == CtorEvalStage::Finished(Err(CtorEvalError::Read { source })),
        spec_next_stage(plan, CtorEvalStage::ValidateInput, CtorEvalEvent::Validated(false))
            == CtorEvalStage::Finished(Err(CtorEvalError::ValidateWasmInput)),
        spec_next_stage(plan, CtorEvalStage::EvalCtors, CtorEvalEvent::CtorsEvalled(Err(source)))
            == CtorEvalStage::Finished(Err(CtorEvalError::Eval { source })),
        spec_next_stage(plan, CtorEvalStage::CheckCtorExports, CtorEvalEvent::CtorExportsChecked(Err(source)))
            == CtorEvalStage::Finished(Err(CtorEvalError::Eval { source })),
        spec_next_stage(plan, CtorEvalStage::ValidateOutput, CtorEvalEvent::Validated(false))
            == CtorEvalStage::Finished(Err(CtorEvalError::ValidateWasmOutput)),
        spec_next_stage(plan, CtorEvalStage::WriteOutput, CtorEvalEvent::ModuleWritten(Err(source)))
            == CtorEvalStage::Finished(Err(CtorEvalError::Write { source })),
{
}

impl CtorEvalOptions {
    /// Create a new `CtorEvalOptions` with no ctors to evaluate.
    ///
    /// Add ctors with [`CtorEvalOptions::add_ctor`].
    pub fn new() -> (options: CtorEvalOptions)
        ensures
            options.reader.file_type == FileType::Any,
            !options.reader.preserve_type_order,
            options.writer.file_type == FileType::Wasm,
            options.features.baseline == FeatureBaseline::Default,
            options.features.enabled@ == Seq::<Feature>::empty(),
            options.features.disabled@ == Seq::<Feature>::empty(),
            options.ctors@ == Seq::<String>::empty(),
            options.kept_exports@ == Seq::<String>::empty(),
            !options.ignore_external_input,
            !options.debug_info,
            options.quiet,
            options.max_steps == 0,
    {
        CtorEvalOptions {
            reader: ReaderOptions::default(),
            writer: WriterOptions::default(),
            features: Features::default(),
            ctors: Vec::new(),
            kept_exports: Vec::new(),
            ignore_external_input: false,
            debug_info: false,
            quiet: true,
            max_steps: 0,
        }
    }

    /// Start the Binaryen ctor evaluator.
    ///
    /// The run loads a module from `infile`, evaluates the ctors named by
    /// [`CtorEvalOptions::ctors`], and writes the module to `outfile`.
    ///
    /// A ctor that cannot be evaluated is not an error: evaluation just stops
    /// there, and the module is written out with whatever was evalled before
    /// it. Set [`CtorEvalOptions::quiet`] to `false` to see why it stopped.
    ///
    /// # Errors
    ///
    /// The run finishes with an error on I/O failure, if the input fails to
    /// parse, if a name in `ctors` is not an exported function, or if either
    /// the input module or the evalled module fails to validate.
    ///
    /// Reading a module on stdin is not supported. If `infile` is empty or
    /// the path "-" (also written "-/", for example),
    /// [`CtorEvalError::InvalidStdinPath`] is returned.
    pub fn run(&self, infile: &str, outfile: &str) -> (run: Result<CtorEvalRun, CtorEvalError>)
        ensures
            infile@.len() == 0 || infile@ == "-"@ ==> run == Err::<CtorEvalRun, CtorEvalError>(
                CtorEvalError::InvalidStdinPath,
            ),
            run is Err ==> run == Err::<CtorEvalRun, CtorEvalError>(CtorEvalError::InvalidStdinPath),
            !could_be_dash(infile@) && infile@.len() > 0 ==> run is Ok,
            !infile@.contains('\\') ==> (run is Err <==> (infile@.len() == 0 || dash_components(infile@))),
            run matches Ok(r) ==> r.plan.follows(*self, infile@, outfile@) && r.stage is ReadInput,
    {
        if infile.is_empty() || path_eq(infile, "-") {
            return Err(CtorEvalError::InvalidStdinPath);
        }
        let (enabled_features, disabled_features) = convert_feature_sets(&self.features);
        let plan = CtorEvalPlan {
            infile: infile.to_owned(),
            outfile: outfile.to_owned(),
            read_method: read_method(self.reader.file_type),
            enabled_features,
            disabled_features,
            preserve_type_order: self.reader.preserve_type_order,
            ctors: join_names(&self.ctors),
            kept_exports: join_names(&self.kept_exports),
            ignore_external_input: self.ignore_external_input,
            quiet: self.quiet,
            max_steps: self.max_steps,
            write_method: write_method(self.writer.file_type, self.reader.file_type),
            debug_info: self.debug_info,
        };
        Ok(CtorEvalRun { plan, stage: CtorEvalStage::ReadInput })
    }
}

/// Builder methods.
impl CtorEvalOptions {
    /// Adds an exported function to evaluate, after the ones added before.
    pub fn add_ctor(&mut self, ctor: &str) -> (this: &mut Self)
        ensures
            texts(this.ctors@) == texts(old(self).ctors@).push(ctor@),
            *this == (CtorEvalOptions { ctors: this.ctors, ..*old(self) }),
            *final(self) == *final(this),
    {
        self.ctors.push(ctor.to_owned());
        proof {
            assert(texts(self.ctors@) =~= texts(old(self).ctors@).push(ctor@));
        }
        self
    }

    /// Adds an export to keep after its ctor is evaluated.
    pub fn add_kept_export(&mut self, export: &str) -> (this: &mut Self)
        ensures
            texts(this.kept_exports@) == texts(old(self).kept_exports@).push(export@),
            *this == (CtorEvalOptions { kept_exports: this.kept_exports, ..*old(self) }),
            *final(self) == *final(this),
    {
        self.kept_exports.push(export.to_owned());
        proof {
            assert(texts(self.kept_exports@) =~= texts(old(self).kept_exports@).push(export@));
        }
        self
    }

    /// Sets [`CtorEvalOptions::ignore_external_input`].
    pub fn ignore_external_input(&mut self, ignore_external_input: bool) -> (this: &mut Self)
        ensures
            *this == (CtorEvalOptions { ignore_external_input: ignore_external_input, ..*old(self) }),
            *final(self) == *final(this),
    {
        self.ignore_external_input = ignore_external_input;
        self
    }

    /// Sets [`CtorEvalOptions::debug_info`].
    pub fn debug_info(&mut self, debug_info: bool) -> (this: &mut Self)
        ensures
            *this == (CtorEvalOptions { debug_info: debug_info, ..*old(self) }),
            *final(self) == *final(this),
    {
        self.debug_info = debug_info;
        self
    }

    /// Sets [`CtorEvalOptions::quiet`].
    pub fn quiet(&mut self, quiet: bool) -> (this: &mut Self)
        ensures
            *this == (CtorEvalOptions { quiet: quiet, ..*old(self) }),
            *final(self) == *final(this),
    {
        self.quiet = quiet;
        self
    }

    /// Sets [`CtorEvalOptions::max_steps`].
    pub fn max_steps(&mut self, max_steps: u32) -> (this: &mut Self)
        ensures
            *this == (CtorEvalOptions { max_steps: max_steps, ..*old(self) }),
            *final(self) == *final(this),
    {
        self.max_steps = max_steps;
        self
    }

    /// Sets the format of the input.
    pub fn reader_file_type(&mut self, file_type: FileType) -> (this: &mut Self)
        ensures
            *this == (CtorEvalOptions { reader: ReaderOptions { file_type, ..old(self).reader }, ..*old(self) }),
            *final(self) == *final(this),
    {
        self.reader.file_type = file_type;
        self
    }

    /// Sets the format of the output.
    pub fn writer_file_type(&mut self, file_type: FileType) -> (this: &mut Self)
        ensures
            *this == (CtorEvalOptions { writer: WriterOptions { file_type }, ..*old(self) }),
            *final(self) == *final(this),
    {
        self.writer.file_type = file_type;
        self
    }

    /// Keeps the type order of the input module.
    pub fn preserve_type_order(&mut self, preserve: bool) -> (this: &mut Self)
        ensures
            *this == (CtorEvalOptions {
                reader: ReaderOptions { preserve_type_order: preserve, ..old(self).reader },
                ..*old(self)
            }),
            *final(self) == *final(this),
    {
        self.reader.preserve_type_order = preserve;
        self
    }

    /// Starts from every feature.
    pub fn all_features(&mut self) -> (this: &mut Self)
        ensures
            *this == (CtorEvalOptions {
                features: Features { baseline: FeatureBaseline::All, ..old(self).features },
                ..*old(self)
            }),
            *final(self) == *final(this),
    {
        self.features.baseline = FeatureBaseline::All;
        self
    }

    /// Starts from the MVP, with every feature not enabled by name disabled.
    pub fn mvp_features_only(&mut self) -> (this: &mut Self)
        ensures
            *this == (CtorEvalOptions {
                features: Features { baseline: FeatureBaseline::MvpOnly, ..old(self).features },
                ..*old(self)
            }),
            *final(self) == *final(this),
    {
        self.features.baseline = FeatureBaseline::MvpOnly;
        self
    }

    /// Enables a feature.
    pub fn enable_feature(&mut self, feature: Feature) -> (this: &mut Self)
        ensures
            this.features.enabled@ == old(self).features.enabled@.push(feature),
            *this == (CtorEvalOptions {
                features: Features { enabled: this.features.enabled, ..old(self).features },
                ..*old(self)
            }),
            *final(self) == *final(this),
    {
        self.features.enabled.push(feature);
        self
    }

    /// Disables a feature.
    pub fn disable_feature(&mut self, feature: Feature) -> (this: &mut Self)
        ensures
            this.features.disabled@ == old(self).features.disabled@.push(feature),
            *this == (CtorEvalOptions {
                features: Features { disabled: this.features.disabled, ..old(self).features },
                ..*old(self)
            }),
            *final(self) == *final(this),
    {
        self.features.disabled.push(feature);
        self
    }
}

impl Default for CtorEvalOptions {
    fn default() -> (options: CtorEvalOptions)
        ensures
            options.reader.file_type == FileType::Any,
            !options.reader.preserve_type_order,
            options.writer.file_type == FileType::Wasm,
            options.features.baseline == FeatureBaseline::Default,
            options.features.enabled@ == Seq::<Feature>::empty(),
            options.features.disabled@ == Seq::<Feature>::empty(),
            options.ctors@ == Seq::<String>::empty(),
            options.kept_exports@ == Seq::<String>::empty(),
            !options.ignore_external_input,
            !options.debug_info,
            options.quiet,
            options.max_steps == 0,
    {
        CtorEvalOptions::new()
    }
}

} // verus!
