use module_loader::records::{
    BuildError, HookSideEffects, ImportKind, ModuleDefFormat, PackageJson, RawImportRecord,
    ResolveError, ResolvedRequestInfo, StmtInfo,
};
use module_loader::resolve_deps::finish_resolutions;
use module_loader::resolve_id::{
    begin_resolve, on_post_external_check, on_pre_external_check, on_resolution, ResolveIdState,
};
use module_loader::side_effects::{determine_side_effects, DeterminedSideEffects};

fn record(specifier: &str, kind: ImportKind) -> RawImportRecord {
    RawImportRecord { module_request: specifier.to_string(), kind }
}

fn resolved(path: &str) -> ResolvedRequestInfo {
    ResolvedRequestInfo {
        path: path.to_string(),
        module_type: ModuleDefFormat::EsmMjs,
        is_external: false,
        package_json: None,
        side_effects: None,
    }
}

#[test]
fn index_alignment_for_mixed_outcomes() {
    let records = vec![
        record("./a", ImportKind::Import),
        record("missing", ImportKind::Import),
        record("./c", ImportKind::DynamicImport),
    ];
    let outcomes = vec![
        Ok(resolved("/src/a.js")),
        Err(ResolveError::NotFound("missing".to_string())),
        Ok(resolved("/src/c.js")),
    ];
    let (deps, warnings) = finish_resolutions(&records, &outcomes, "/src/main.js").unwrap();
    assert_eq!(deps.len(), records.len());
    assert_eq!(deps[0].path, "/src/a.js");
    assert_eq!(deps[2].path, "/src/c.js");
    assert_eq!(warnings.len(), 1);
}

#[test]
fn not_found_downgrades_to_external_with_one_warning() {
    let records = vec![record("missing", ImportKind::Import)];
    let outcomes = vec![Err(ResolveError::NotFound("missing".to_string()))];
    let (deps, warnings) = finish_resolutions(&records, &outcomes, "/src/main.js").unwrap();
    assert_eq!(deps.len(), 1);
    assert!(deps[0].is_external);
    assert_eq!(deps[0].module_type, ModuleDefFormat::Unknown);
    assert_eq!(deps[0].path, "missing");
    assert_eq!(
        warnings,
        vec![BuildError::UnresolvedImportTreatedAsExternal {
            specifier: "missing".to_string(),
            importer: "/src/main.js".to_string(),
        }]
    );
}

#[test]
fn fatal_errors_are_batched_not_split() {
    let records = vec![
        record("./broken-a", ImportKind::Import),
        record("./fine", ImportKind::Import),
        record("./broken-b", ImportKind::Import),
    ];
    let outcomes = vec![
        Err(ResolveError::Recursion("./broken-a".to_string())),
        Ok(resolved("/src/fine.js")),
        Err(ResolveError::PackagePathNotExported("./broken-b".to_string())),
    ];
    let failures = finish_resolutions(&records, &outcomes, "/src/main.js").unwrap_err();
    assert_eq!(failures.len(), 2);
    assert_eq!(failures[0].specifier, "./broken-a");
    assert_eq!(failures[1].specifier, "./broken-b");
}

#[test]
fn external_classifier_pre_check_short_circuits() {
    let s = begin_resolve("foo".to_string(), "/src/main.js".to_string(), true);
    assert!(matches!(s, ResolveIdState::PreExternalCheck { .. }));
    let t = on_pre_external_check(s, true);
    match t {
        ResolveIdState::Finished { outcome: Ok(info) } => {
            assert!(info.is_external);
            assert_eq!(info.module_type, ModuleDefFormat::Unknown);
            assert_eq!(info.path, "foo");
            assert_eq!(info.package_json, None);
        }
        other => panic!("expected a finished external resolution, got {other:?}"),
    }
}

#[test]
fn rejected_pre_check_proceeds_to_resolution() {
    let s = begin_resolve("./util".to_string(), "/src/main.js".to_string(), true);
    let t = on_pre_external_check(s, false);
    assert!(matches!(t, ResolveIdState::Resolving { .. }));
    let t = on_resolution(t, Ok(resolved("/src/util.js")), true);
    match t {
        ResolveIdState::PostExternalCheck { ref resolved } => {
            assert_eq!(resolved.path, "/src/util.js");
        }
        ref other => panic!("expected a post-resolution check, got {other:?}"),
    }
    let t = on_post_external_check(t, true);
    match t {
        ResolveIdState::Finished { outcome: Ok(info) } => {
            assert!(info.is_external);
            assert_eq!(info.path, "/src/util.js");
        }
        other => panic!("expected a finished resolution, got {other:?}"),
    }
}

#[test]
fn runtime_module_short_circuits_without_resolver() {
    let s = begin_resolve(
        "rolldown:runtime".to_string(),
        "/src/main.js".to_string(),
        false,
    );
    match s {
        ResolveIdState::Finished { outcome: Ok(info) } => {
            assert!(!info.is_external);
            assert_eq!(info.module_type, ModuleDefFormat::EsmMjs);
            assert_eq!(info.path, "rolldown:runtime");
        }
        other => panic!("expected the internal runtime module, got {other:?}"),
    }
}

#[test]
fn resolution_failure_propagates_unchanged() {
    let s = begin_resolve("./gone".to_string(), "/src/main.js".to_string(), false);
    let t = on_resolution(s, Err(ResolveError::NotFound("./gone".to_string())), false);
    match t {
        ResolveIdState::Finished { outcome: Err(e) } => {
            assert_eq!(e, ResolveError::NotFound("./gone".to_string()));
        }
        other => panic!("expected the propagated failure, got {other:?}"),
    }
}

fn stmts(flags: &[bool]) -> Vec<StmtInfo> {
    flags.iter().map(|&side_effect| StmtInfo { side_effect }).collect()
}

#[test]
fn side_effect_precedence() {
    let pkg_false = Some(PackageJson { side_effects: Some(false) });
    let pkg_true = Some(PackageJson { side_effects: Some(true) });

    // (a) hook says false: user-defined false regardless of anything else
    assert_eq!(
        determine_side_effects(Some(HookSideEffects::False), &pkg_true, &stmts(&[true])),
        DeterminedSideEffects::UserDefined(false)
    );
    // (b) hook says no-treeshake: wins regardless of anything else
    assert_eq!(
        determine_side_effects(Some(HookSideEffects::NoTreeshake), &pkg_false, &stmts(&[true])),
        DeterminedSideEffects::NoTreeshake
    );
    // hook says true: defers to the package declaration
    assert_eq!(
        determine_side_effects(Some(HookSideEffects::True), &pkg_false, &stmts(&[true])),
        DeterminedSideEffects::UserDefined(false)
    );
    // (c) no hook, package declares false even with side-effecting statements
    assert_eq!(
        determine_side_effects(None, &pkg_false, &stmts(&[true, false])),
        DeterminedSideEffects::UserDefined(false)
    );
    // (d) no hook, no package declaration, one statement flagged
    assert_eq!(
        determine_side_effects(None, &None, &stmts(&[false, true])),
        DeterminedSideEffects::Analyzed(true)
    );
    // (e) no hook, no package declaration, nothing flagged
    assert_eq!(
        determine_side_effects(None, &None, &stmts(&[false, false])),
        DeterminedSideEffects::Analyzed(false)
    );
    // package present but silent falls through to analysis
    assert_eq!(
        determine_side_effects(None, &Some(PackageJson { side_effects: None }), &stmts(&[])),
        DeterminedSideEffects::Analyzed(false)
    );
}
