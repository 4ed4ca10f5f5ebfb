//! One module-load task: the per-module pipeline from loaded source text to
//! exactly one terminal message for the graph builder.
//!
//! The pipeline's suspension points (plugin hooks, the file system, the
//! parser, the scanner, the fan-out of resolution jobs) belong to the
//! driver; the task itself is a state machine whose transitions decide what
//! each collaborator answer means. `TaskStage` names the answer being
//! waited for, `step` consumes it, and `Emitted` is the only terminal
//! stage — it accepts no further event, so a task reports exactly once.
use vstd::prelude::*;

use crate::paths::{spec_stable_id, stabilize_resource_id};
use crate::records::{
    BuildError, HookSideEffects, ModuleDefFormat, ModuleType, NormalModuleId, PackageJson,
    RawImportRecord, ResolveError, ResolvedRequestInfo, ScanResult, StmtInfo,
};
use crate::resolve_deps::{
    finish_resolutions, spec_downgrade_count, spec_downgrade_warning, spec_failure_entry,
    spec_failure_justified, spec_fatal_count, spec_is_downgraded, spec_is_fatal,
    spec_warning_justified, ResolutionFailure,
};
use crate::resolve_id::spec_external_unknown;
use crate::side_effects::{
    determine_side_effects, spec_any_stmt_side_effect, spec_determined_side_effects,
    spec_package_side_effects, DeterminedSideEffects,
};

verus! {

/// Shared, read-only configuration handed to every task.
#[derive(Debug, PartialEq, Eq)]
pub struct TaskContext {
    /// The configured working directory that stable identifiers are
    /// spelled relative to.
    pub cwd: String,
    /// The configured extension-to-content-type table.
    pub module_types: Vec<(String, ModuleType)>,
}

/// The file extension of `p` scanned from `i` leftwards: the text after the
/// last `.` of the final path component, unless that component starts with
/// the dot or has none.
pub open spec fn spec_extension_from(p: Seq<char>, i: int) -> Option<Seq<char>>
    decreases i + 1,
{
    if i < 0 || i >= p.len() {
        None
    } else if p[i] == '/' {
        None
    } else if p[i] == '.' {
        if i > 0 && p[i - 1] != '/' {
            Some(p.subrange(i + 1, p.len() as int))
        } else {
            None
        }
    } else {
        spec_extension_from(p, i - 1)
    }
}

/// The file extension of path `p`, if it has one.
pub open spec fn spec_extension(p: Seq<char>) -> Option<Seq<char>> {
    spec_extension_from(p, p.len() - 1)
}

/// Extract the file extension of a path.
pub fn extension_of(path: &str) -> (r: Option<&str>)
    ensures
        r matches Some(e) ==> spec_extension(path@) == Some(e@),
        r is None ==> spec_extension(path@) is None,
{
    let n = path.unicode_len();
    let mut i: usize = n;
    while i > 0
        invariant
            0 <= i <= n,
            n == path@.len(),
            spec_extension(path@) == spec_extension_from(path@, i - 1),
        decreases i,
    {
        let c = path.get_char(i - 1);
        if c == '/' {
            return None;
        } else if c == '.' {
            if i - 1 > 0 && path.get_char(i - 2) != '/' {
                return Some(path.substring_char(i, n));
            } else {
                return None;
            }
        }
        i -= 1;
    }
    None
}

/// The first entry of the table whose extension matches, if any.
pub open spec fn spec_lookup_module_type(
    table: Seq<(String, ModuleType)>,
    ext: Seq<char>,
) -> Option<ModuleType>
    decreases table.len(),
{
    if table.len() == 0 {
        None
    } else if table[0].0@ == ext {
        Some(table[0].1)
    } else {
        spec_lookup_module_type(table.drop_first(), ext)
    }
}

/// Look an extension up in the configured table.
fn lookup_module_type(table: &Vec<(String, ModuleType)>, ext: &String) -> (r: Option<ModuleType>)
    ensures
        r == spec_lookup_module_type(table@, ext@),
{
    let mut i: usize = 0;
    proof {
        assert(table@.skip(0) =~= table@);
    }
    while i < table.len()
        invariant
            0 <= i <= table@.len(),
            spec_lookup_module_type(table@, ext@) == spec_lookup_module_type(
                table@.skip(i as int),
                ext@,
            ),
        decreases table@.len() - i,
    {
        proof {
            assert(table@.skip(i as int)[0] == table@[i as int]);
            assert(table@.skip(i as int).drop_first() =~= table@.skip(i as int + 1));
        }
        if table[i].0 == *ext {
            return Some(table[i].1);
        }
        i += 1;
    }
    proof {
        assert(table@.skip(i as int) =~= Seq::<(String, ModuleType)>::empty());
    }
    None
}

/// The content type classified for a path: its extension (defaulting to
/// `js` when the path has none) looked up in the table, defaulting to the
/// base script type when the table has no entry for it. No error is raised
/// for an unrecognized extension at this stage; that is a design choice.
pub open spec fn spec_classified_module_type(
    table: Seq<(String, ModuleType)>,
    path: Seq<char>,
) -> ModuleType {
    let key = match spec_extension(path) {
        Some(e) => e,
        None => "js"@,
    };
    match spec_lookup_module_type(table, key) {
        Some(t) => t,
        None => ModuleType::Js,
    }
}

/// Classify a module's content type from its path against the table.
pub fn classify_module_type(table: &Vec<(String, ModuleType)>, path: &str) -> (r: ModuleType)
    ensures
        r == spec_classified_module_type(table@, path@),
{
    let key: String = match extension_of(path) {
        Some(e) => e.to_owned(),
        None => "js".to_owned(),
    };
    match lookup_module_type(table, &key) {
        Some(t) => t,
        None => ModuleType::Js,
    }
}

/// The resolved paths of the static imports among the first `n` records,
/// in record order.
pub open spec fn spec_static_ids(
    records: Seq<RawImportRecord>,
    deps: Seq<ResolvedRequestInfo>,
    n: int,
) -> Seq<String>
    decreases n,
{
    if n <= 0 {
        Seq::empty()
    } else {
        let prefix = spec_static_ids(records, deps, n - 1);
        if records[n - 1].kind.spec_is_static() {
            prefix.push(deps[n - 1].path)
        } else {
            prefix
        }
    }
}

/// The resolved paths of the dynamic imports among the first `n` records,
/// in record order.
pub open spec fn spec_dynamic_ids(
    records: Seq<RawImportRecord>,
    deps: Seq<ResolvedRequestInfo>,
    n: int,
) -> Seq<String>
    decreases n,
{
    if n <= 0 {
        Seq::empty()
    } else {
        let prefix = spec_dynamic_ids(records, deps, n - 1);
        if !records[n - 1].kind.spec_is_static() {
            prefix.push(deps[n - 1].path)
        } else {
            prefix
        }
    }
}

/// Partition the resolved dependencies into statically and dynamically
/// imported paths. Both lists preserve the import records' original order;
/// every record lands in exactly one list.
pub fn partition_imported_ids(
    records: &Vec<RawImportRecord>,
    deps: &Vec<ResolvedRequestInfo>,
) -> (r: (Vec<String>, Vec<String>))
    requires
        deps@.len() == records@.len(),
    ensures
        r.0@ == spec_static_ids(records@, deps@, records@.len() as int),
        r.1@ == spec_dynamic_ids(records@, deps@, records@.len() as int),
{
    let mut imported_ids: Vec<String> = Vec::new();
    let mut dynamically_imported_ids: Vec<String> = Vec::new();
    let mut i: usize = 0;
    while i < records.len()
        invariant
            0 <= i <= records@.len(),
            deps@.len() == records@.len(),
            imported_ids@ == spec_static_ids(records@, deps@, i as int),
            dynamically_imported_ids@ == spec_dynamic_ids(records@, deps@, i as int),
        decreases records@.len() - i,
    {
        if records[i].kind.is_static() {
            imported_ids.push(deps[i].path.clone());
        } else {
            dynamically_imported_ids.push(deps[i].path.clone());
        }
        i += 1;
    }
    (imported_ids, dynamically_imported_ids)
}

/// Every record lands in exactly one of the two partitions.
pub proof fn lemma_partition_complete(
    records: Seq<RawImportRecord>,
    deps: Seq<ResolvedRequestInfo>,
    n: int,
)
    requires
        0 <= n <= records.len(),
        deps.len() == records.len(),
    ensures
        spec_static_ids(records, deps, n).len() + spec_dynamic_ids(records, deps, n).len() == n,
    decreases n,
{
    if n > 0 {
        lemma_partition_complete(records, deps, n - 1);
    }
}

/// A fatal pipeline failure: the module contributes nothing to the graph
/// and is reported exactly once.
#[derive(Debug, PartialEq, Eq)]
pub enum FatalError {
    /// The load hook or the file-system fallback failed.
    LoadFailure { message: String },
    /// A transform hook failed.
    TransformFailure { message: String },
    /// The source could not be parsed; there is no meaningful partial
    /// module to continue with.
    ParseFailure { message: String },
    /// The `moduleParsed` notification hook failed.
    HookFailure { message: String },
    /// At least one dependency failed to resolve for a reason other than
    /// "not found"; every offending specifier is batched into this one
    /// report.
    DependencyResolutionFailure { importer: String, failures: Vec<ResolutionFailure> },
}

/// The terminal, immutable artifact of the pipeline. Ownership transfers
/// to the graph builder on emission; placeholders (execution order,
/// importer back-references, inclusion) are filled in later by the builder.
#[derive(Debug, PartialEq, Eq)]
pub struct NormalModule {
    pub source: String,
    pub id: NormalModuleId,
    pub repr_name: String,
    pub stable_resource_id: String,
    pub resource_id: String,
    pub stmt_infos: Vec<StmtInfo>,
    pub def_format: ModuleDefFormat,
    pub sourcemap_chain: Vec<String>,
    pub exec_order: u32,
    pub is_user_defined_entry: bool,
    pub is_included: bool,
    pub importers: Vec<NormalModuleId>,
    pub dynamic_importers: Vec<NormalModuleId>,
    pub imported_ids: Vec<String>,
    pub dynamically_imported_ids: Vec<String>,
    pub side_effects: DeterminedSideEffects,
}

/// Everything one successful task hands to the graph builder.
#[derive(Debug, PartialEq, Eq)]
pub struct NormalModuleTaskResult {
    pub module_id: NormalModuleId,
    pub resolved_deps: Vec<ResolvedRequestInfo>,
    pub raw_import_records: Vec<RawImportRecord>,
    pub warnings: Vec<BuildError>,
    pub module: NormalModule,
}

/// The tagged union sent over the result channel. Exactly one message is
/// sent per task.
#[derive(Debug, PartialEq, Eq)]
pub enum Msg {
    NormalModuleDone(NormalModuleTaskResult),
    BuildErrors(Vec<BuildError>),
    Panics(FatalError),
}

/// One per-module load task: the tuple it is constructed from, owned for
/// the task's whole life.
#[derive(Debug, PartialEq, Eq)]
pub struct NormalModuleTask {
    pub ctx: TaskContext,
    pub module_id: NormalModuleId,
    pub resolved_path: String,
    pub package_json: Option<PackageJson>,
    pub module_type: ModuleDefFormat,
    pub errors: Vec<BuildError>,
    pub is_user_defined_entry: bool,
    pub side_effects: Option<HookSideEffects>,
}

/// A hook's side-effect declaration overrides the one carried so far;
/// silence keeps it.
pub open spec fn spec_merge_side_effects(
    current: Option<HookSideEffects>,
    from_hook: Option<HookSideEffects>,
) -> Option<HookSideEffects> {
    match from_hook {
        Some(se) => Some(se),
        None => current,
    }
}

/// Fold one hook answer into the carried side-effect declaration.
pub fn merge_side_effects(
    current: Option<HookSideEffects>,
    from_hook: Option<HookSideEffects>,
) -> (r: Option<HookSideEffects>)
    ensures
        r == spec_merge_side_effects(current, from_hook),
{
    match from_hook {
        Some(se) => Some(se),
        None => current,
    }
}

/// A hook answer's optional source-map entry appended to the chain.
pub open spec fn spec_chain_append(chain: Seq<String>, entry: Option<String>) -> Seq<String> {
    match entry {
        Some(e) => chain.push(e),
        None => chain,
    }
}

/// Append a hook answer's optional source-map entry to the chain.
pub fn append_chain(chain: Vec<String>, entry: Option<String>) -> (r: Vec<String>)
    ensures
        r@ == spec_chain_append(chain@, entry),
{
    let mut chain = chain;
    match entry {
        Some(e) => {
            chain.push(e);
            chain
        },
        None => chain,
    }
}

/// The fields of the assembled module record, given the task, the final
/// source text, the carried side-effect declaration and source-map chain,
/// the scan result and the aligned resolved dependencies.
pub open spec fn spec_assembled_module(
    module: NormalModule,
    task: NormalModuleTask,
    source: String,
    hook_side_effects: Option<HookSideEffects>,
    sourcemap_chain: Seq<String>,
    scan: ScanResult,
    deps: Seq<ResolvedRequestInfo>,
) -> bool {
    &&& module.source == source
    &&& module.id == task.module_id
    &&& module.repr_name == scan.repr_name
    &&& module.resource_id@ == task.resolved_path@
    &&& module.stable_resource_id@ == spec_stable_id(task.resolved_path@, task.ctx.cwd@)
    &&& module.stmt_infos@ == scan.stmt_infos@
    &&& module.def_format == task.module_type
    &&& module.sourcemap_chain@ == sourcemap_chain
    &&& module.exec_order == u32::MAX
    &&& module.is_user_defined_entry == task.is_user_defined_entry
    &&& !module.is_included
    &&& module.importers@.len() == 0
    &&& module.dynamic_importers@.len() == 0
    &&& module.imported_ids@ == spec_static_ids(
        scan.import_records@,
        deps,
        scan.import_records@.len() as int,
    )
    &&& module.dynamically_imported_ids@ == spec_dynamic_ids(
        scan.import_records@,
        deps,
        scan.import_records@.len() as int,
    )
    &&& module.side_effects == spec_determined_side_effects(
        hook_side_effects,
        spec_package_side_effects(task.package_json),
        spec_any_stmt_side_effect(scan.stmt_infos@),
    )
}

/// The one terminal message a task may emit once its import records are
/// scanned and every resolution outcome is in: a single batched fatal
/// report when any outcome failed fatally, otherwise the assembled module
/// record with its index-aligned dependencies and its warnings (the
/// downgrade warnings first, the scan warnings after them).
#[verifier::opaque]
pub open spec fn spec_task_outcome(
    task: NormalModuleTask,
    source: String,
    hook_side_effects: Option<HookSideEffects>,
    sourcemap_chain: Seq<String>,
    scan: ScanResult,
    outcomes: Seq<Result<ResolvedRequestInfo, ResolveError>>,
    m: Msg,
) -> bool {
    let dg = spec_downgrade_count(outcomes, outcomes.len() as int);
    if exists|j: int| 0 <= j < outcomes.len() && spec_is_fatal(outcomes[j]) {
        &&& m matches Msg::Panics(FatalError::DependencyResolutionFailure { importer, failures })
        &&& importer@ == task.resolved_path@
        &&& failures@.len() == spec_fatal_count(outcomes, outcomes.len() as int)
        &&& (forall|j: int|
            0 <= j < outcomes.len() && spec_is_fatal(outcomes[j]) ==> exists|k: int|
                0 <= k < failures@.len() && spec_failure_entry(
                    failures@[k],
                    scan.import_records[j].module_request@,
                    outcomes[j]->Err_0,
                ))
        &&& (forall|k: int|
            0 <= k < failures@.len() ==> spec_failure_justified(
                #[trigger] failures@[k],
                scan.import_records@,
                outcomes,
                outcomes.len() as int,
            ))
    } else {
        &&& m matches Msg::NormalModuleDone(res)
        &&& res.module_id == task.module_id
        &&& res.resolved_deps@.len() == scan.import_records@.len()
        &&& (forall|j: int|
            0 <= j < outcomes.len() && outcomes[j] is Ok ==> res.resolved_deps@[j]
                == outcomes[j]->Ok_0)
        &&& (forall|j: int|
            0 <= j < outcomes.len() && outcomes[j] is Err ==> spec_external_unknown(
                res.resolved_deps@[j],
                scan.import_records[j].module_request@,
            ))
        &&& res.raw_import_records@ == scan.import_records@
        &&& res.warnings@.len() == dg + scan.warnings@.len()
        &&& res.warnings@.skip(dg) == scan.warnings@
        &&& (forall|j: int|
            0 <= j < outcomes.len() && spec_is_downgraded(outcomes[j]) ==> exists|k: int|
                0 <= k < dg && spec_downgrade_warning(
                    res.warnings@[k],
                    scan.import_records[j].module_request@,
                    task.resolved_path@,
                ))
        &&& (forall|k: int|
            0 <= k < dg ==> spec_warning_justified(
                #[trigger] res.warnings@[k],
                scan.import_records@,
                outcomes,
                task.resolved_path@,
                outcomes.len() as int,
            ))
        &&& spec_assembled_module(
            res.module,
            task,
            source,
            hook_side_effects,
            sourcemap_chain,
            scan,
            res.resolved_deps@,
        )
    }
}

impl NormalModuleTask {
    /// Construct one task from the tuple the scheduler assigns: shared
    /// context, identity, resolved path, detected format, entry flag,
    /// optional package metadata and an optional side-effect declaration
    /// already supplied while resolving.
    pub fn new(
        ctx: TaskContext,
        id: NormalModuleId,
        path: String,
        module_type: ModuleDefFormat,
        is_user_defined_entry: bool,
        package_json: Option<PackageJson>,
        side_effects: Option<HookSideEffects>,
    ) -> (t: Self)
        ensures
            t.ctx == ctx,
            t.module_id == id,
            t.resolved_path == path,
            t.module_type == module_type,
            t.errors@.len() == 0,
            t.is_user_defined_entry == is_user_defined_entry,
            t.package_json == package_json,
            t.side_effects == side_effects,
    {
        NormalModuleTask {
            ctx,
            module_id: id,
            resolved_path: path,
            module_type,
            errors: Vec::new(),
            is_user_defined_entry,
            package_json,
            side_effects,
        }
    }

    /// Finish the pipeline once the scan result and all resolution
    /// outcomes are in: partition the outcomes, classify side effects,
    /// assemble the module record, and build the terminal message.
    #[verifier::rlimit(50)]
    pub fn process_scanned_module(
        &self,
        source: String,
        hook_side_effects: Option<HookSideEffects>,
        sourcemap_chain: Vec<String>,
        scan_result: ScanResult,
        outcomes: &Vec<Result<ResolvedRequestInfo, ResolveError>>,
    ) -> (m: Msg)
        requires
            outcomes@.len() == scan_result.import_records@.len(),
        ensures
            spec_task_outcome(
                *self,
                source,
                hook_side_effects,
                sourcemap_chain@,
                scan_result,
                outcomes@,
                m,
            ),
            m is NormalModuleDone || m is Panics,
    {
        match finish_resolutions(&scan_result.import_records, outcomes, self.resolved_path.as_str()) {
            Err(failures) => {
                proof {
                    assert(!(forall|j: int|
                        0 <= j < outcomes@.len() ==> !spec_is_fatal(outcomes@[j])));
                    assert(exists|j: int|
                        0 <= j < outcomes@.len() && spec_is_fatal(outcomes@[j]));
                    assert(failures@.len() == spec_fatal_count(outcomes@, outcomes@.len() as int));
                    assert(forall|j: int|
                        0 <= j < outcomes@.len() && spec_is_fatal(outcomes@[j]) ==> exists|k: int|
                            0 <= k < failures@.len() && spec_failure_entry(
                                failures@[k],
                                scan_result.import_records[j].module_request@,
                                outcomes@[j]->Err_0,
                            ));
                    assert(forall|k: int|
                        0 <= k < failures@.len() ==> spec_failure_justified(
                            #[trigger] failures@[k],
                            scan_result.import_records@,
                            outcomes@,
                            outcomes@.len() as int,
                        ));
                }
                let m = Msg::Panics(
                    FatalError::DependencyResolutionFailure {
                        importer: self.resolved_path.clone(),
                        failures,
                    },
                );
                proof {
                    assert(spec_task_outcome(
                        *self,
                        source,
                        hook_side_effects,
                        sourcemap_chain@,
                        scan_result,
                        outcomes@,
                        m,
                    )) by {
                        reveal(spec_task_outcome);
                    };
                }
                m
            },
            Ok((resolved_deps, warnings)) => {
                self.assemble_done(
                    source,
                    hook_side_effects,
                    sourcemap_chain,
                    scan_result,
                    resolved_deps,
                    warnings,
                    Ghost(outcomes@),
                )
            },
        }
    }

    /// Assemble the `Done` message once every resolution outcome is in and
    /// none failed fatally: `resolved_deps` and `warnings` are the
    /// partitioned output of the fan-in step.
    #[verifier::rlimit(50)]
    fn assemble_done(
        &self,
        source: String,
        hook_side_effects: Option<HookSideEffects>,
        sourcemap_chain: Vec<String>,
        scan_result: ScanResult,
        resolved_deps: Vec<ResolvedRequestInfo>,
        warnings: Vec<BuildError>,
        Ghost(outcomes): Ghost<Seq<Result<ResolvedRequestInfo, ResolveError>>>,
    ) -> (m: Msg)
        requires
            outcomes.len() == scan_result.import_records@.len(),
            forall|j: int| 0 <= j < outcomes.len() ==> !spec_is_fatal(outcomes[j]),
            resolved_deps@.len() == scan_result.import_records@.len(),
            forall|j: int|
                0 <= j < outcomes.len() && outcomes[j] is Ok ==> resolved_deps@[j]
                    == outcomes[j]->Ok_0,
            forall|j: int|
                0 <= j < outcomes.len() && outcomes[j] is Err ==> spec_external_unknown(
                    resolved_deps@[j],
                    scan_result.import_records[j].module_request@,
                ),
            warnings@.len() == spec_downgrade_count(outcomes, outcomes.len() as int),
            forall|j: int|
                0 <= j < outcomes.len() && spec_is_downgraded(outcomes[j]) ==> exists|k: int|
                    0 <= k < warnings@.len() && spec_downgrade_warning(
                        warnings@[k],
                        scan_result.import_records[j].module_request@,
                        self.resolved_path@,
                    ),
            forall|k: int|
                0 <= k < warnings@.len() ==> spec_warning_justified(
                    #[trigger] warnings@[k],
                    scan_result.import_records@,
                    outcomes,
                    self.resolved_path@,
                    outcomes.len() as int,
                ),
        ensures
            spec_task_outcome(
                *self,
                source,
                hook_side_effects,
                sourcemap_chain@,
                scan_result,
                outcomes,
                m,
            ),
            m is NormalModuleDone,
    {
                let mut warnings = warnings;
                let ghost dg = spec_downgrade_count(outcomes, outcomes.len() as int);
                let ghost resolve_warnings = warnings@;
                let (imported_ids, dynamically_imported_ids) = partition_imported_ids(
                    &scan_result.import_records,
                    &resolved_deps,
                );
                let stable_resource_id = stabilize_resource_id(
                    self.resolved_path.as_str(),
                    self.ctx.cwd.as_str(),
                );
                let side_effects = determine_side_effects(
                    hook_side_effects,
                    &self.package_json,
                    &scan_result.stmt_infos,
                );
                let ScanResult { import_records, stmt_infos, repr_name, warnings: scan_warnings } =
                    scan_result;
                let mut scan_warnings = scan_warnings;
                let ghost scan_warning_seq = scan_warnings@;
                warnings.append(&mut scan_warnings);
                proof {
                    assert(warnings@ == resolve_warnings + scan_warning_seq);
                    assert(warnings@.skip(dg) =~= scan_warning_seq);
                    assert(forall|k: int|
                        0 <= k < dg ==> warnings@[k] == resolve_warnings[k]);
                }
                let module = NormalModule {
                    source,
                    id: self.module_id,
                    repr_name,
                    stable_resource_id,
                    resource_id: self.resolved_path.clone(),
                    stmt_infos,
                    def_format: self.module_type,
                    sourcemap_chain,
                    exec_order: u32::MAX,
                    is_user_defined_entry: self.is_user_defined_entry,
                    is_included: false,
                    importers: Vec::new(),
                    dynamic_importers: Vec::new(),
                    imported_ids,
                    dynamically_imported_ids,
                    side_effects,
                };
                let m = Msg::NormalModuleDone(
                    NormalModuleTaskResult {
                        module_id: self.module_id,
                        resolved_deps,
                        raw_import_records: import_records,
                        warnings,
                        module,
                    },
                );
                proof {
                    assert(spec_task_outcome(
                        *self,
                        source,
                        hook_side_effects,
                        sourcemap_chain@,
                        scan_result,
                        outcomes,
                        m,
                    )) by {
                        reveal(spec_task_outcome);
                    };
                }
                m
    }
}

/// The stage one task is in: each non-terminal stage names the one
/// collaborator answer it waits for.
#[derive(Debug, PartialEq, Eq)]
pub enum TaskStage {
    /// Waiting for the load hook (or the file-system fallback).
    Loading,
    /// Waiting for the transform hook chain.
    Transforming {
        source: String,
        hook_side_effects: Option<HookSideEffects>,
        sourcemap_chain: Vec<String>,
    },
    /// Waiting for the parser.
    Parsing {
        source: String,
        hook_side_effects: Option<HookSideEffects>,
        sourcemap_chain: Vec<String>,
    },
    /// Waiting for the scanner (which never fails the task).
    Scanning {
        source: String,
        hook_side_effects: Option<HookSideEffects>,
        sourcemap_chain: Vec<String>,
    },
    /// Waiting for every resolution job of the fan-out to come back.
    ResolvingDeps {
        source: String,
        hook_side_effects: Option<HookSideEffects>,
        sourcemap_chain: Vec<String>,
        scan_result: ScanResult,
    },
    /// Waiting for the `moduleParsed` notification hook.
    Notifying { result: NormalModuleTaskResult },
    /// Terminal: the single message sent for this module.
    Emitted { msg: Msg },
}

/// One collaborator answer handed back to the task by the driver.
#[derive(Debug, PartialEq, Eq)]
pub enum TaskEvent {
    /// The load hook (or the file system) produced the source, perhaps
    /// with a side-effect declaration and a source-map entry.
    Loaded { source: String, side_effects: Option<HookSideEffects>, sourcemap: Option<String> },
    LoadFailed { message: String },
    /// The transform chain produced the new source, perhaps with a
    /// side-effect declaration and a source-map entry.
    Transformed {
        source: String,
        side_effects: Option<HookSideEffects>,
        sourcemap: Option<String>,
    },
    TransformFailed { message: String },
    Parsed,
    ParseFailed { message: String },
    Scanned { scan_result: ScanResult },
    /// Every resolution job completed, one outcome per import record.
    DepsResolved { outcomes: Vec<Result<ResolvedRequestInfo, ResolveError>> },
    ModuleParsedOk,
    ModuleParsedFailed { message: String },
}

/// Which event each stage accepts. The terminal stage accepts none, so a
/// task emits exactly one message; the fan-in event must carry one outcome
/// per import record.
pub open spec fn stage_accepts(stage: TaskStage, event: TaskEvent) -> bool {
    match stage {
        TaskStage::Loading => event is Loaded || event is LoadFailed,
        TaskStage::Transforming { .. } => event is Transformed || event is TransformFailed,
        TaskStage::Parsing { .. } => event is Parsed || event is ParseFailed,
        TaskStage::Scanning { .. } => event is Scanned,
        TaskStage::ResolvingDeps { scan_result, .. } => {
            &&& event matches TaskEvent::DepsResolved { outcomes }
            &&& outcomes@.len() == scan_result.import_records@.len()
        },
        TaskStage::Notifying { .. } => event is ModuleParsedOk || event is ModuleParsedFailed,
        TaskStage::Emitted { .. } => false,
    }
}

/// A task that has emitted its terminal message accepts no further event:
/// each task reports exactly one terminal message.
pub proof fn lemma_emitted_is_terminal(msg: Msg, event: TaskEvent)
    ensures
        !stage_accepts(TaskStage::Emitted { msg }, event),
{
}

impl NormalModuleTask {
    /// Consume one collaborator answer and move to the next stage.
    ///
    /// Load, transform, parse and the `moduleParsed` notification abort
    /// the task with a fatal message when they fail; no partial `Done` is
    /// ever sent. Side-effect declarations carried by load and transform
    /// answers override the one held so far, and their source-map entries
    /// extend the chain in order.
    pub fn step(&self, stage: TaskStage, event: TaskEvent) -> (t: TaskStage)
        requires
            stage_accepts(stage, event),
        ensures
            stage is Loading && event is Loaded ==> (t matches TaskStage::Transforming {
                source,
                hook_side_effects,
                sourcemap_chain,
            } && source == event->Loaded_source && hook_side_effects == spec_merge_side_effects(
                self.side_effects,
                event->Loaded_side_effects,
            ) && sourcemap_chain@ == spec_chain_append(
                Seq::<String>::empty(),
                event->Loaded_sourcemap,
            )),
            stage is Loading && event is LoadFailed ==> t == (TaskStage::Emitted {
                msg: Msg::Panics(FatalError::LoadFailure { message: event->LoadFailed_message }),
            }),
            stage is Transforming && event is Transformed ==> (t matches TaskStage::Parsing {
                source,
                hook_side_effects,
                sourcemap_chain,
            } && source == event->Transformed_source && hook_side_effects
                == spec_merge_side_effects(
                stage->Transforming_hook_side_effects,
                event->Transformed_side_effects,
            ) && sourcemap_chain@ == spec_chain_append(
                stage->Transforming_sourcemap_chain@,
                event->Transformed_sourcemap,
            )),
            stage is Transforming && event is TransformFailed ==> t == (TaskStage::Emitted {
                msg: Msg::Panics(
                    FatalError::TransformFailure { message: event->TransformFailed_message },
                ),
            }),
            stage is Parsing && event is Parsed ==> t == (TaskStage::Scanning {
                source: stage->Parsing_source,
                hook_side_effects: stage->Parsing_hook_side_effects,
                sourcemap_chain: stage->Parsing_sourcemap_chain,
            }),
            stage is Parsing && event is ParseFailed ==> t == (TaskStage::Emitted {
                msg: Msg::Panics(FatalError::ParseFailure { message: event->ParseFailed_message }),
            }),
            stage is Scanning && event is Scanned ==> t == (TaskStage::ResolvingDeps {
                source: stage->Scanning_source,
                hook_side_effects: stage->Scanning_hook_side_effects,
                sourcemap_chain: stage->Scanning_sourcemap_chain,
                scan_result: event->Scanned_scan_result,
            }),
            stage is ResolvingDeps && event is DepsResolved ==> {
                ||| (t matches TaskStage::Emitted { msg } && msg is Panics && spec_task_outcome(
                    *self,
                    stage->ResolvingDeps_source,
                    stage->ResolvingDeps_hook_side_effects,
                    stage->ResolvingDeps_sourcemap_chain@,
                    stage->ResolvingDeps_scan_result,
                    event->DepsResolved_outcomes@,
                    msg,
                ))
                ||| (t matches TaskStage::Notifying { result } && spec_task_outcome(
                    *self,
                    stage->ResolvingDeps_source,
                    stage->ResolvingDeps_hook_side_effects,
                    stage->ResolvingDeps_sourcemap_chain@,
                    stage->ResolvingDeps_scan_result,
                    event->DepsResolved_outcomes@,
                    Msg::NormalModuleDone(result),
                ))
            },
            stage is Notifying && event is ModuleParsedOk ==> t == (TaskStage::Emitted {
                msg: Msg::NormalModuleDone(stage->Notifying_result),
            }),
            stage is Notifying && event is ModuleParsedFailed ==> t == (TaskStage::Emitted {
                msg: Msg::Panics(
                    FatalError::HookFailure { message: event->ModuleParsedFailed_message },
                ),
            }),
    {
        match (stage, event) {
            (TaskStage::Loading, TaskEvent::Loaded { source, side_effects, sourcemap }) => {
                TaskStage::Transforming {
                    source,
                    hook_side_effects: merge_side_effects(self.side_effects, side_effects),
                    sourcemap_chain: append_chain(Vec::new(), sourcemap),
                }
            },
            (TaskStage::Loading, TaskEvent::LoadFailed { message }) => {
                TaskStage::Emitted { msg: Msg::Panics(FatalError::LoadFailure { message }) }
            },
            (
                TaskStage::Transforming { source: _, hook_side_effects, sourcemap_chain },
                TaskEvent::Transformed { source, side_effects, sourcemap },
            ) => {
                TaskStage::Parsing {
                    source,
                    hook_side_effects: merge_side_effects(hook_side_effects, side_effects),
                    sourcemap_chain: append_chain(sourcemap_chain, sourcemap),
                }
            },
            (TaskStage::Transforming { .. }, TaskEvent::TransformFailed { message }) => {
                TaskStage::Emitted { msg: Msg::Panics(FatalError::TransformFailure { message }) }
            },
            (
                TaskStage::Parsing { source, hook_side_effects, sourcemap_chain },
                TaskEvent::Parsed,
            ) => {
                TaskStage::Scanning { source, hook_side_effects, sourcemap_chain }
            },
            (TaskStage::Parsing { .. }, TaskEvent::ParseFailed { message }) => {
                TaskStage::Emitted { msg: Msg::Panics(FatalError::ParseFailure { message }) }
            },
            (
                TaskStage::Scanning { source, hook_side_effects, sourcemap_chain },
                TaskEvent::Scanned { scan_result },
            ) => {
                TaskStage::ResolvingDeps { source, hook_side_effects, sourcemap_chain, scan_result }
            },
            (
                TaskStage::ResolvingDeps { source, hook_side_effects, sourcemap_chain, scan_result },
                TaskEvent::DepsResolved { outcomes },
            ) => {
                let msg = self.process_scanned_module(
                    source,
                    hook_side_effects,
                    sourcemap_chain,
                    scan_result,
                    &outcomes,
                );
                match msg {
                    Msg::NormalModuleDone(result) => TaskStage::Notifying { result },
                    _ => TaskStage::Emitted { msg },
                }
            },
            (TaskStage::Notifying { result }, TaskEvent::ModuleParsedOk) => {
                TaskStage::Emitted { msg: Msg::NormalModuleDone(result) }
            },
            (TaskStage::Notifying { .. }, TaskEvent::ModuleParsedFailed { message }) => {
                TaskStage::Emitted { msg: Msg::Panics(FatalError::HookFailure { message }) }
            },
            (stage, _) => stage,
        }
    }
}

} // verus!
