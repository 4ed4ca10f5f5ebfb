//! Plain data carried through the module-loading pipeline: import records,
//! resolution results, scan output, and the typed errors of the protocol.
use vstd::prelude::*;

verus! {

/// Identity of one discovered module, assigned once before its task runs.
/// Results are placed into the graph by identity, never by completion order.
#[derive(Clone, Copy, Debug, PartialEq, Eq, Structural)]
pub struct NormalModuleId(pub u32);

/// How one import occurrence was written in the source.
#[derive(Clone, Copy, Debug, PartialEq, Eq, Structural)]
pub enum ImportKind {
    /// A static `import` declaration.
    Import,
    /// A dynamic `import(...)` expression.
    DynamicImport,
    /// A CommonJS `require(...)` call.
    Require,
}

impl ImportKind {
    /// Static occurrences are everything but a dynamic `import(...)`.
    #[verifier::when_used_as_spec(spec_is_static)]
    pub fn is_static(self) -> (r: bool)
        ensures
            r == self.spec_is_static(),
    {
        !matches!(self, ImportKind::DynamicImport)
    }

    pub open spec fn spec_is_static(self) -> bool {
        self != ImportKind::DynamicImport
    }
}

/// Module format detected while resolving a specifier.
#[derive(Clone, Copy, Debug, PartialEq, Eq, Structural)]
pub enum ModuleDefFormat {
    Unknown,
    EsmMjs,
    CjsCjs,
}

/// Content type classified from a file extension; drives which parser runs.
#[derive(Clone, Copy, Debug, PartialEq, Eq, Structural)]
pub enum ModuleType {
    Js,
    Jsx,
    Ts,
    Tsx,
    Json,
}

/// One import/export/dynamic-import occurrence inside a module's source.
/// Order of records is insertion order and is semantically meaningful.
#[derive(Clone, Debug, PartialEq, Eq)]
pub struct RawImportRecord {
    /// The raw specifier text written in the source.
    pub module_request: String,
    pub kind: ImportKind,
}

/// The part of a `package.json` that the pipeline reads: the side-effects
/// declaration already evaluated for this package's files, if any was given.
#[derive(Clone, Copy, Debug, PartialEq, Eq, Structural)]
pub struct PackageJson {
    pub side_effects: Option<bool>,
}

/// Side-effect declaration supplied by a plugin hook for one module.
#[derive(Clone, Copy, Debug, PartialEq, Eq, Structural)]
pub enum HookSideEffects {
    True,
    False,
    NoTreeshake,
}

/// The result of resolving one import record; one-to-one with the record
/// by index, even when a failed resolution degrades to "treated as external".
#[derive(Clone, Debug, PartialEq, Eq)]
pub struct ResolvedRequestInfo {
    /// Resolved path, or the raw specifier text when external.
    pub path: String,
    pub module_type: ModuleDefFormat,
    pub is_external: bool,
    pub package_json: Option<PackageJson>,
    pub side_effects: Option<HookSideEffects>,
}

/// A typed resolution failure. The protocol only needs "not found" to be
/// distinguishable from every other kind: not-found degrades to an external
/// dependency with a warning, anything else is fatal for the module.
#[derive(Clone, Debug, PartialEq, Eq)]
pub enum ResolveError {
    /// The specifier matched nothing on disk or in any plugin.
    NotFound(String),
    /// Resolution entered a cycle of package redirections.
    Recursion(String),
    /// The package exists but does not export the requested subpath.
    PackagePathNotExported(String),
}

impl ResolveError {
    #[verifier::when_used_as_spec(spec_is_not_found)]
    pub fn is_not_found(&self) -> (r: bool)
        ensures
            r == self.spec_is_not_found(),
    {
        matches!(self, ResolveError::NotFound(_))
    }

    pub open spec fn spec_is_not_found(&self) -> bool {
        self is NotFound
    }
}

/// A recoverable build error or warning, attached to the eventual
/// `Done` message rather than aborting the task.
#[derive(Clone, Debug, PartialEq, Eq)]
pub enum BuildError {
    /// A specifier nobody could resolve, downgraded to an external
    /// dependency of the named importer.
    UnresolvedImportTreatedAsExternal { specifier: String, importer: String },
    /// A non-fatal anomaly found while scanning the AST.
    ScanWarning { message: String },
}

/// Per-statement information extracted by the scanner; only the
/// side-effect flag matters to this pipeline.
#[derive(Clone, Copy, Debug, PartialEq, Eq, Structural)]
pub struct StmtInfo {
    pub side_effect: bool,
}

/// What the AST scanner hands back for one module. Produced once,
/// destructured once into the final module record.
#[derive(Clone, Debug, PartialEq, Eq)]
pub struct ScanResult {
    pub import_records: Vec<RawImportRecord>,
    pub stmt_infos: Vec<StmtInfo>,
    /// Representative display name derived from the file name.
    pub repr_name: String,
    pub warnings: Vec<BuildError>,
}

} // verus!
