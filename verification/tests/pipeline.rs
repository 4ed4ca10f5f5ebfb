use module_loader::paths::stabilize_resource_id;
use module_loader::records::{
    BuildError, HookSideEffects, ImportKind, ModuleDefFormat, ModuleType, NormalModuleId,
    RawImportRecord, ResolveError, ResolvedRequestInfo, ScanResult, StmtInfo,
};
use module_loader::task::{
    classify_module_type, extension_of, partition_imported_ids, FatalError, Msg, NormalModuleTask,
    TaskContext, TaskEvent, TaskStage,
};

fn record(specifier: &str, kind: ImportKind) -> RawImportRecord {
    RawImportRecord { module_request: specifier.to_string(), kind }
}

fn internal(path: &str) -> ResolvedRequestInfo {
    ResolvedRequestInfo {
        path: path.to_string(),
        module_type: ModuleDefFormat::EsmMjs,
        is_external: false,
        package_json: None,
        side_effects: None,
    }
}

fn default_context() -> TaskContext {
    TaskContext {
        cwd: "/src".to_string(),
        module_types: vec![
            ("js".to_string(), ModuleType::Js),
            ("jsx".to_string(), ModuleType::Jsx),
            ("ts".to_string(), ModuleType::Ts),
            ("json".to_string(), ModuleType::Json),
        ],
    }
}

#[test]
fn extension_extraction() {
    assert_eq!(extension_of("/src/a.js"), Some("js"));
    assert_eq!(extension_of("/src/archive.tar.gz"), Some("gz"));
    assert_eq!(extension_of("/src/Makefile"), None);
    assert_eq!(extension_of("/src/.hidden"), None);
    assert_eq!(extension_of("/src.dir/readme"), None);
}

#[test]
fn module_type_classification_defaults() {
    let ctx = default_context();
    assert_eq!(classify_module_type(&ctx.module_types, "/src/a.ts"), ModuleType::Ts);
    assert_eq!(classify_module_type(&ctx.module_types, "/src/a.json"), ModuleType::Json);
    // no extension: the default "js" key
    assert_eq!(classify_module_type(&ctx.module_types, "/src/Makefile"), ModuleType::Js);
    // unrecognized extension: the base script type, no error
    assert_eq!(classify_module_type(&ctx.module_types, "/src/a.wasm"), ModuleType::Js);
}

#[test]
fn stable_id_is_cwd_relative() {
    assert_eq!(stabilize_resource_id("/src/lib/a.js", "/src"), "lib/a.js");
    // virtual and raw specifiers keep their spelling
    assert_eq!(stabilize_resource_id("virtual:env", "/src"), "virtual:env");
}

#[test]
fn partition_preserves_record_order() {
    let records = vec![
        record("./a", ImportKind::Import),
        record("./lazy", ImportKind::DynamicImport),
        record("./b", ImportKind::Require),
        record("./later", ImportKind::DynamicImport),
    ];
    let deps = vec![
        internal("/src/a.js"),
        internal("/src/lazy.js"),
        internal("/src/b.js"),
        internal("/src/later.js"),
    ];
    let (imported, dynamic) = partition_imported_ids(&records, &deps);
    assert_eq!(imported, vec!["/src/a.js".to_string(), "/src/b.js".to_string()]);
    assert_eq!(dynamic, vec!["/src/lazy.js".to_string(), "/src/later.js".to_string()]);
}

fn new_task() -> NormalModuleTask {
    NormalModuleTask::new(
        default_context(),
        NormalModuleId(1),
        "/src/a.js".to_string(),
        ModuleDefFormat::EsmMjs,
        true,
        None,
        None,
    )
}

#[test]
fn end_to_end_scenario() {
    // a.js imports b.js (exists) and missing.js (does not), has one
    // side-effecting top-level statement, no plugins, no package.json
    // side-effects field.
    let task = new_task();
    let stage = TaskStage::Loading;
    let stage = task.step(
        stage,
        TaskEvent::Loaded {
            source: "import './b.js'; import './missing.js'; touch();".to_string(),
            side_effects: None,
            sourcemap: None,
        },
    );
    assert!(matches!(stage, TaskStage::Transforming { .. }));
    let source = match &stage {
        TaskStage::Transforming { source, .. } => source.clone(),
        _ => unreachable!(),
    };
    let stage = task.step(
        stage,
        TaskEvent::Transformed { source, side_effects: None, sourcemap: None },
    );
    assert!(matches!(stage, TaskStage::Parsing { .. }));
    let stage = task.step(stage, TaskEvent::Parsed);
    assert!(matches!(stage, TaskStage::Scanning { .. }));
    let stage = task.step(
        stage,
        TaskEvent::Scanned {
            scan_result: ScanResult {
                import_records: vec![
                    record("./b.js", ImportKind::Import),
                    record("./missing.js", ImportKind::Import),
                ],
                stmt_infos: vec![
                    StmtInfo { side_effect: false },
                    StmtInfo { side_effect: false },
                    StmtInfo { side_effect: true },
                ],
                repr_name: "a".to_string(),
                warnings: vec![],
            },
        },
    );
    assert!(matches!(stage, TaskStage::ResolvingDeps { .. }));
    let stage = task.step(
        stage,
        TaskEvent::DepsResolved {
            outcomes: vec![
                Ok(internal("/src/b.js")),
                Err(ResolveError::NotFound("./missing.js".to_string())),
            ],
        },
    );
    let result = match stage {
        TaskStage::Notifying { result } => result,
        other => panic!("expected the moduleParsed notification, got {other:?}"),
    };
    let stage = task.step(TaskStage::Notifying { result }, TaskEvent::ModuleParsedOk);
    let msg = match stage {
        TaskStage::Emitted { msg } => msg,
        other => panic!("expected the terminal message, got {other:?}"),
    };
    let done = match msg {
        Msg::NormalModuleDone(done) => done,
        other => panic!("expected a Done message, got {other:?}"),
    };
    assert_eq!(done.module_id, NormalModuleId(1));
    assert_eq!(done.resolved_deps.len(), 2);
    assert_eq!(
        done.module.side_effects,
        module_loader::side_effects::DeterminedSideEffects::Analyzed(true)
    );
    // both specifiers' resolved paths, in source order, missing.js externalized
    assert_eq!(
        done.module.imported_ids,
        vec!["/src/b.js".to_string(), "./missing.js".to_string()]
    );
    assert!(done.resolved_deps[1].is_external);
    assert_eq!(done.module.dynamically_imported_ids, Vec::<String>::new());
    assert_eq!(
        done.warnings,
        vec![BuildError::UnresolvedImportTreatedAsExternal {
            specifier: "./missing.js".to_string(),
            importer: "/src/a.js".to_string(),
        }]
    );
    assert_eq!(done.module.stable_resource_id, "a.js");
    assert_eq!(done.module.is_user_defined_entry, true);
    assert_eq!(done.module.exec_order, u32::MAX);
}

#[test]
fn fatal_resolution_emits_one_batched_message() {
    let task = new_task();
    let stage = TaskStage::ResolvingDeps {
        source: "import './x'; import './y';".to_string(),
        hook_side_effects: None,
        sourcemap_chain: vec![],
        scan_result: ScanResult {
            import_records: vec![
                record("./x", ImportKind::Import),
                record("./y", ImportKind::Import),
            ],
            stmt_infos: vec![],
            repr_name: "a".to_string(),
            warnings: vec![],
        },
    };
    let stage = task.step(
        stage,
        TaskEvent::DepsResolved {
            outcomes: vec![
                Err(ResolveError::Recursion("./x".to_string())),
                Err(ResolveError::Recursion("./y".to_string())),
            ],
        },
    );
    let msg = match stage {
        TaskStage::Emitted { msg } => msg,
        other => panic!("expected one terminal message, got {other:?}"),
    };
    match msg {
        Msg::Panics(FatalError::DependencyResolutionFailure { importer, failures }) => {
            assert_eq!(importer, "/src/a.js");
            assert_eq!(failures.len(), 2);
            assert_eq!(failures[0].specifier, "./x");
            assert_eq!(failures[1].specifier, "./y");
        }
        other => panic!("expected the batched resolution failure, got {other:?}"),
    }
}

#[test]
fn load_failure_is_fatal() {
    let task = new_task();
    let stage = task.step(
        TaskStage::Loading,
        TaskEvent::LoadFailed { message: "permission denied".to_string() },
    );
    match stage {
        TaskStage::Emitted { msg: Msg::Panics(FatalError::LoadFailure { message }) } => {
            assert_eq!(message, "permission denied");
        }
        other => panic!("expected a fatal load failure, got {other:?}"),
    }
}

#[test]
fn hook_side_effects_override_in_order() {
    let task = NormalModuleTask::new(
        default_context(),
        NormalModuleId(2),
        "/src/b.js".to_string(),
        ModuleDefFormat::EsmMjs,
        false,
        None,
        Some(HookSideEffects::True),
    );
    let stage = task.step(
        TaskStage::Loading,
        TaskEvent::Loaded {
            source: "x".to_string(),
            side_effects: None,
            sourcemap: Some("map-load".to_string()),
        },
    );
    match &stage {
        TaskStage::Transforming { hook_side_effects, sourcemap_chain, .. } => {
            assert_eq!(*hook_side_effects, Some(HookSideEffects::True));
            assert_eq!(sourcemap_chain, &vec!["map-load".to_string()]);
        }
        other => panic!("expected the transform stage, got {other:?}"),
    }
    let stage = task.step(
        stage,
        TaskEvent::Transformed {
            source: "y".to_string(),
            side_effects: Some(HookSideEffects::False),
            sourcemap: Some("map-transform".to_string()),
        },
    );
    match &stage {
        TaskStage::Parsing { source, hook_side_effects, sourcemap_chain } => {
            assert_eq!(source, "y");
            assert_eq!(*hook_side_effects, Some(HookSideEffects::False));
            assert_eq!(
                sourcemap_chain,
                &vec!["map-load".to_string(), "map-transform".to_string()]
            );
        }
        other => panic!("expected the parse stage, got {other:?}"),
    }
}

#[test]
fn transform_failure_is_fatal() {
    let task = new_task();
    let stage = TaskStage::Transforming {
        source: "x".to_string(),
        hook_side_effects: None,
        sourcemap_chain: vec![],
    };
    let stage = task.step(
        stage,
        TaskEvent::TransformFailed { message: "plugin exploded".to_string() },
    );
    match stage {
        TaskStage::Emitted { msg: Msg::Panics(FatalError::TransformFailure { message }) } => {
            assert_eq!(message, "plugin exploded");
        }
        other => panic!("expected a fatal transform failure, got {other:?}"),
    }
}

#[test]
fn parse_failure_is_fatal() {
    let task = new_task();
    let stage = TaskStage::Parsing {
        source: "import {".to_string(),
        hook_side_effects: None,
        sourcemap_chain: vec![],
    };
    let stage = task.step(
        stage,
        TaskEvent::ParseFailed { message: "unexpected end of file".to_string() },
    );
    match stage {
        TaskStage::Emitted { msg: Msg::Panics(FatalError::ParseFailure { message }) } => {
            assert_eq!(message, "unexpected end of file");
        }
        other => panic!("expected a fatal parse failure, got {other:?}"),
    }
}

#[test]
fn module_parsed_hook_failure_is_fatal() {
    let task = new_task();
    let stage = TaskStage::ResolvingDeps {
        source: String::new(),
        hook_side_effects: None,
        sourcemap_chain: vec![],
        scan_result: ScanResult {
            import_records: vec![],
            stmt_infos: vec![],
            repr_name: "a".to_string(),
            warnings: vec![],
        },
    };
    let stage = task.step(stage, TaskEvent::DepsResolved { outcomes: vec![] });
    assert!(matches!(stage, TaskStage::Notifying { .. }));
    let stage = task.step(
        stage,
        TaskEvent::ModuleParsedFailed { message: "hook rejected".to_string() },
    );
    match stage {
        TaskStage::Emitted { msg: Msg::Panics(FatalError::HookFailure { message }) } => {
            assert_eq!(message, "hook rejected");
        }
        other => panic!("expected a fatal hook failure, got {other:?}"),
    }
}

#[test]
fn scan_warnings_are_carried_into_done() {
    let task = new_task();
    let stage = TaskStage::ResolvingDeps {
        source: String::new(),
        hook_side_effects: None,
        sourcemap_chain: vec![],
        scan_result: ScanResult {
            import_records: vec![record("./missing", ImportKind::Import)],
            stmt_infos: vec![],
            repr_name: "a".to_string(),
            warnings: vec![BuildError::ScanWarning { message: "odd construct".to_string() }],
        },
    };
    let stage = task.step(
        stage,
        TaskEvent::DepsResolved {
            outcomes: vec![Err(ResolveError::NotFound("./missing".to_string()))],
        },
    );
    let result = match stage {
        TaskStage::Notifying { result } => result,
        other => panic!("expected the moduleParsed notification, got {other:?}"),
    };
    // downgrade warnings first, scan warnings after them
    assert_eq!(result.warnings.len(), 2);
    assert!(matches!(
        result.warnings[0],
        BuildError::UnresolvedImportTreatedAsExternal { .. }
    ));
    assert_eq!(
        result.warnings[1],
        BuildError::ScanWarning { message: "odd construct".to_string() }
    );
}
