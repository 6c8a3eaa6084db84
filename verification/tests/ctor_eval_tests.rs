use wasm_opt::ctor_eval::{CtorEvalAction, CtorEvalEvent, CtorEvalRun, ReadMethod, WriteMethod};
use wasm_opt::{CtorEvalError, CtorEvalOptions, Feature, FeatureBaseline, FileType};

#[test]
fn invalid_stdin_path_is_an_error() {
    let res = CtorEvalOptions::new().run("", "outfile.wasm");

    assert!(matches!(res, Err(CtorEvalError::InvalidStdinPath)));

    let res = CtorEvalOptions::new().run("-", "outfile.wasm");

    assert!(matches!(res, Err(CtorEvalError::InvalidStdinPath)));
}

fn start(options: &CtorEvalOptions) -> CtorEvalRun {
    match options.run("in.wat", "out.wat") {
        Ok(run) => run,
        Err(e) => panic!("unexpected error: {:?}", e),
    }
}

fn expect_read(run: &CtorEvalRun) -> (String, ReadMethod, u32, u32) {
    match run.action() {
        CtorEvalAction::ReadModule { path, method, enabled_features, disabled_features } => {
            (path, method, enabled_features, disabled_features)
        }
        _ => panic!("expected a read"),
    }
}

#[test]
fn a_path_that_only_starts_with_a_dash_is_a_file() {
    assert!(CtorEvalOptions::new().run("-x.wasm", "out.wasm").is_ok());
    assert!(CtorEvalOptions::new().run("./-", "out.wasm").is_ok());
    assert!(CtorEvalOptions::new().run("-.wasm", "out.wasm").is_ok());
    assert!(CtorEvalOptions::new().run("in.wat", "out.wasm").is_ok());
}

#[test]
fn a_path_with_the_components_of_a_dash_is_stdin() {
    for path in ["-/", "-//", "-/.", "-/./", "-//.//."] {
        let res = CtorEvalOptions::new().run(path, "outfile.wasm");
        assert!(matches!(res, Err(CtorEvalError::InvalidStdinPath)), "{}", path);
    }
    for path in ["-/x", "-/..", "-/.x", "-.", "-./"] {
        assert!(CtorEvalOptions::new().run(path, "outfile.wasm").is_ok(), "{}", path);
    }
}

#[test]
fn a_full_run_asks_for_each_step_in_order() {
    let mut options = CtorEvalOptions::new();
    options.add_ctor("test1").add_ctor("test2");
    options.kept_exports.push("test2".to_string());
    options.writer.file_type = FileType::Wat;
    options.max_steps = 10_000;
    let mut run = start(&options);

    let (path, method, enabled, disabled) = expect_read(&run);
    assert_eq!(path, "in.wat");
    assert_eq!(method, ReadMethod::Detect);
    // SignExt | MutableGlobals.
    assert_eq!(enabled, 0x22);
    assert_eq!(disabled, 0);
    run.advance(CtorEvalEvent::ModuleRead(Ok(())));

    assert!(matches!(run.action(), CtorEvalAction::ClearTypeIndices));
    run.advance(CtorEvalEvent::TypeIndicesCleared);

    assert!(matches!(run.action(), CtorEvalAction::Validate));
    run.advance(CtorEvalEvent::Validated(true));

    assert!(matches!(run.action(), CtorEvalAction::CheckCanEval));
    run.advance(CtorEvalEvent::CanEvalChecked(true));

    match run.action() {
        CtorEvalAction::EvalCtors { ctors, kept_exports, ignore_external_input, quiet, max_steps } => {
            assert_eq!(ctors, "test1,test2");
            assert_eq!(kept_exports, "test2");
            assert!(!ignore_external_input);
            assert!(quiet);
            assert_eq!(max_steps, 10_000);
        }
        _ => panic!("expected an evaluation"),
    }
    run.advance(CtorEvalEvent::CtorsEvalled(Ok(true)));

    assert!(matches!(run.action(), CtorEvalAction::Validate));
    run.advance(CtorEvalEvent::Validated(true));

    match run.action() {
        CtorEvalAction::RunPasses { passes } => {
            assert_eq!(
                passes,
                vec![
                    "memory-packing",
                    "remove-unused-names",
                    "dce",
                    "merge-blocks",
                    "vacuum",
                    "remove-unused-module-elements",
                ]
            );
        }
        _ => panic!("expected the cleanup passes"),
    }
    run.advance(CtorEvalEvent::PassesRun);

    match run.action() {
        CtorEvalAction::WriteModule { path, method, debug_info } => {
            assert_eq!(path, "out.wat");
            assert_eq!(method, WriteMethod::Text);
            assert!(!debug_info);
        }
        _ => panic!("expected a write"),
    }
    run.advance(CtorEvalEvent::ModuleWritten(Ok(())));

    assert!(matches!(run.action(), CtorEvalAction::Finish));
    assert_eq!(run.outcome(), Some(Ok(())));
}

#[test]
fn a_module_that_cannot_be_evalled_is_written_unchanged() {
    let mut options = CtorEvalOptions::new();
    options.reader.preserve_type_order = true;
    let mut run = start(&options);
    run.advance(CtorEvalEvent::ModuleRead(Ok(())));
    // The type order is kept.
    assert!(matches!(run.action(), CtorEvalAction::Validate));
    run.advance(CtorEvalEvent::Validated(true));
    run.advance(CtorEvalEvent::CanEvalChecked(false));
    match run.action() {
        CtorEvalAction::CheckCtorExports { ctors } => assert_eq!(ctors, ""),
        _ => panic!("expected the ctors to be checked"),
    }
    run.advance(CtorEvalEvent::CtorExportsChecked(Ok(())));
    match run.action() {
        CtorEvalAction::WriteModule { method, .. } => assert_eq!(method, WriteMethod::Binary),
        _ => panic!("expected a write"),
    }
}

#[test]
fn an_unknown_ctor_is_an_error_even_when_nothing_is_evalled() {
    let mut options = CtorEvalOptions::new();
    options.add_ctor("test1").add_ctor("no-such-export");
    let mut run = start(&options);
    run.advance(CtorEvalEvent::ModuleRead(Ok(())));
    run.advance(CtorEvalEvent::TypeIndicesCleared);
    run.advance(CtorEvalEvent::Validated(true));
    run.advance(CtorEvalEvent::CanEvalChecked(false));
    match run.action() {
        CtorEvalAction::CheckCtorExports { ctors } => assert_eq!(ctors, "test1,no-such-export"),
        _ => panic!("expected the ctors to be checked"),
    }
    run.advance(CtorEvalEvent::CtorExportsChecked(Err("export not found: no-such-export".to_string())));
    assert!(matches!(run.action(), CtorEvalAction::Finish));
    match run.outcome() {
        Some(Err(CtorEvalError::Eval { source })) => assert!(source.contains("export not found")),
        other => panic!("unexpected outcome: {:?}", other),
    }
}

#[test]
fn an_unwritable_evaluation_reads_the_input_again() {
    let mut run = start(&CtorEvalOptions::new());
    let first = expect_read(&run);
    run.advance(CtorEvalEvent::ModuleRead(Ok(())));
    run.advance(CtorEvalEvent::TypeIndicesCleared);
    run.advance(CtorEvalEvent::Validated(true));
    run.advance(CtorEvalEvent::CanEvalChecked(true));
    run.advance(CtorEvalEvent::CtorsEvalled(Ok(false)));
    assert_eq!(expect_read(&run), first);
    run.advance(CtorEvalEvent::ModuleRead(Ok(())));
    // No second discarding of the type order.
    assert!(matches!(run.action(), CtorEvalAction::Validate));
    run.advance(CtorEvalEvent::Validated(false));
    assert!(matches!(run.action(), CtorEvalAction::Finish));
    assert_eq!(run.outcome(), Some(Err(CtorEvalError::ValidateWasmOutput)));
}

#[test]
fn each_failure_gives_its_error() {
    let mut run = start(&CtorEvalOptions::new());
    run.advance(CtorEvalEvent::ModuleRead(Err("no such file".to_string())));
    assert_eq!(
        run.outcome(),
        Some(Err(CtorEvalError::Read { source: "no such file".to_string() }))
    );

    let mut run = start(&CtorEvalOptions::new());
    run.advance(CtorEvalEvent::ModuleRead(Ok(())));
    run.advance(CtorEvalEvent::TypeIndicesCleared);
    run.advance(CtorEvalEvent::Validated(false));
    assert_eq!(run.outcome(), Some(Err(CtorEvalError::ValidateWasmInput)));

    let mut run = start(&CtorEvalOptions::new());
    run.advance(CtorEvalEvent::ModuleRead(Ok(())));
    run.advance(CtorEvalEvent::TypeIndicesCleared);
    run.advance(CtorEvalEvent::Validated(true));
    run.advance(CtorEvalEvent::CanEvalChecked(true));
    run.advance(CtorEvalEvent::CtorsEvalled(Err("export not found".to_string())));
    assert_eq!(
        run.outcome(),
        Some(Err(CtorEvalError::Eval { source: "export not found".to_string() }))
    );

    let mut run = start(&CtorEvalOptions::new());
    run.advance(CtorEvalEvent::ModuleRead(Ok(())));
    run.advance(CtorEvalEvent::TypeIndicesCleared);
    run.advance(CtorEvalEvent::Validated(true));
    run.advance(CtorEvalEvent::CanEvalChecked(false));
    run.advance(CtorEvalEvent::CtorExportsChecked(Ok(())));
    run.advance(CtorEvalEvent::ModuleWritten(Err("disk full".to_string())));
    assert_eq!(
        run.outcome(),
        Some(Err(CtorEvalError::Write { source: "disk full".to_string() }))
    );
}

#[test]
fn an_event_that_does_not_answer_changes_nothing() {
    let mut run = start(&CtorEvalOptions::new());
    run.advance(CtorEvalEvent::PassesRun);
    run.advance(CtorEvalEvent::Validated(true));
    assert!(matches!(run.action(), CtorEvalAction::ReadModule { .. }));
    assert_eq!(run.outcome(), None);
}

#[test]
fn a_run_ends_within_nine_actions() {
    let mut run = start(&CtorEvalOptions::new());
    let mut steps = 0;
    loop {
        let event = match run.action() {
            CtorEvalAction::ReadModule { .. } => CtorEvalEvent::ModuleRead(Ok(())),
            CtorEvalAction::ClearTypeIndices => CtorEvalEvent::TypeIndicesCleared,
            CtorEvalAction::Validate => CtorEvalEvent::Validated(true),
            CtorEvalAction::CheckCanEval => CtorEvalEvent::CanEvalChecked(true),
            CtorEvalAction::EvalCtors { .. } => CtorEvalEvent::CtorsEvalled(Ok(false)),
            CtorEvalAction::CheckCtorExports { .. } => CtorEvalEvent::CtorExportsChecked(Ok(())),
            CtorEvalAction::RunPasses { .. } => CtorEvalEvent::PassesRun,
            CtorEvalAction::WriteModule { .. } => CtorEvalEvent::ModuleWritten(Ok(())),
            CtorEvalAction::Finish => break,
        };
        run.advance(event);
        steps += 1;
    }
    assert_eq!(steps, 9);
    assert_eq!(run.outcome(), Some(Ok(())));
}

#[test]
fn feature_baselines_and_named_features() {
    let mut options = CtorEvalOptions::new();
    options.features.baseline = FeatureBaseline::MvpOnly;
    options.features.enabled.push(Feature::Simd);
    let run = start(&options);
    let (_, _, enabled, disabled) = expect_read(&run);
    assert_eq!(enabled, 1 << 3);
    assert_eq!(disabled, ((1 << 28) - 1) & !(1 << 3));

    let mut options = CtorEvalOptions::new();
    options.features.baseline = FeatureBaseline::All;
    options.features.disabled.push(Feature::Gc);
    options.features.enabled.push(Feature::Gc);
    options.reader.file_type = FileType::Wasm;
    let run = start(&options);
    let (_, method, enabled, disabled) = expect_read(&run);
    assert_eq!(method, ReadMethod::Binary);
    assert_eq!(enabled, ((1 << 28) - 1) & !(1 << 10));
    assert_eq!(disabled, 1 << 10);
}

#[test]
fn the_defaults_are_those_of_new() {
    let options = CtorEvalOptions::default();
    assert!(options.ctors.is_empty());
    assert!(options.kept_exports.is_empty());
    assert!(options.quiet);
    assert!(!options.debug_info);
    assert!(!options.ignore_external_input);
    assert_eq!(options.max_steps, 0);
    assert_eq!(options.reader.file_type, FileType::Any);
    assert_eq!(options.writer.file_type, FileType::Wasm);
    assert_eq!(options.features.baseline, FeatureBaseline::Default);
}

#[test]
fn the_builder_methods_set_the_options() {
    let run = CtorEvalOptions::new()
        .add_ctor("test1")
        .add_ctor("test3")
        .add_kept_export("test3")
        .writer_file_type(FileType::Wat)
        .reader_file_type(FileType::Wat)
        .all_features()
        .disable_feature(Feature::Simd)
        .max_steps(10_000)
        .quiet(false)
        .debug_info(true)
        .ignore_external_input(true)
        .preserve_type_order(true)
        .run("in.wat", "out.wat");
    let mut run = match run {
        Ok(run) => run,
        Err(e) => panic!("unexpected error: {:?}", e),
    };
    let (_, method, enabled, disabled) = expect_read(&run);
    assert_eq!(method, ReadMethod::Text);
    assert_eq!(enabled, ((1 << 28) - 1) & !(1 << 3));
    assert_eq!(disabled, 1 << 3);
    run.advance(CtorEvalEvent::ModuleRead(Ok(())));
    run.advance(CtorEvalEvent::Validated(true));
    run.advance(CtorEvalEvent::CanEvalChecked(true));
    match run.action() {
        CtorEvalAction::EvalCtors { ctors, kept_exports, ignore_external_input, quiet, max_steps } => {
            assert_eq!(ctors, "test1,test3");
            assert_eq!(kept_exports, "test3");
            assert!(ignore_external_input);
            assert!(!quiet);
            assert_eq!(max_steps, 10_000);
        }
        _ => panic!("expected an evaluation"),
    }

    let mut options = CtorEvalOptions::new();
    options.mvp_features_only().enable_feature(Feature::Gc);
    let run = start(&options);
    let (_, _, enabled, disabled) = expect_read(&run);
    assert_eq!(enabled, 1 << 10);
    assert_eq!(disabled, ((1 << 28) - 1) & !(1 << 10));
}

#[test]
fn errors_describe_themselves() {
    assert_eq!(CtorEvalError::InvalidStdinPath.message(), "Refusing to read from stdin");
    assert_eq!(
        CtorEvalError::Eval { source: "export not found: x".to_string() }.message(),
        "Failed to evaluate ctors"
    );
    assert_eq!(
        CtorEvalError::ValidateWasmInput.message(),
        "Failed to validate wasm: error validating input"
    );
}
