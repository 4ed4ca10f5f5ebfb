//! The per-specifier resolution protocol.
//!
//! Resolving one specifier interleaves decisions (verified here) with calls
//! to asynchronous collaborators: the user-supplied external-classifier, the
//! plugin `resolveId` chain and the resolver. The driver walks a
//! `ResolveIdState`; each state names the one collaborator answer it waits
//! for, and the transition functions below consume that answer. A
//! collaborator is consulted only in the state that waits for it, so the
//! short-circuits (classifier accepts early; the reserved runtime specifier)
//! provably never reach the resolver.
use vstd::prelude::*;

use crate::records::{ModuleDefFormat, ResolveError, ResolvedRequestInfo};

verus! {

/// The reserved specifier of the engine's runtime-support module.
pub open spec fn spec_runtime_module_id() -> Seq<char> {
    "rolldown:runtime"@
}

/// The reserved runtime specifier as a string slice.
pub fn runtime_module_id() -> (r: &'static str)
    ensures
        r@ == spec_runtime_module_id(),
{
    "rolldown:runtime"
}

/// Whether `specifier` names the engine's runtime-support module.
pub fn is_runtime_specifier(specifier: &str) -> (r: bool)
    ensures
        r == (specifier@ == spec_runtime_module_id()),
{
    let rt: String = runtime_module_id().to_owned();
    let sp: String = specifier.to_owned();
    sp == rt
}

/// An externalized dependency of unknown format: the raw specifier stands
/// in for a path, and no package metadata is attached.
pub open spec fn spec_external_unknown(info: ResolvedRequestInfo, specifier: Seq<char>) -> bool {
    &&& info.path@ == specifier
    &&& info.module_type == ModuleDefFormat::Unknown
    &&& info.is_external
    &&& info.package_json is None
    &&& info.side_effects is None
}

/// The internal ESM runtime-support module.
pub open spec fn spec_runtime_info(info: ResolvedRequestInfo, specifier: Seq<char>) -> bool {
    &&& info.path@ == specifier
    &&& info.module_type == ModuleDefFormat::EsmMjs
    &&& !info.is_external
    &&& info.package_json is None
    &&& info.side_effects is None
}

/// Build the externalized form of an unresolvable or classifier-accepted
/// specifier.
pub fn external_unknown_info(specifier: String) -> (r: ResolvedRequestInfo)
    ensures
        spec_external_unknown(r, specifier@),
{
    ResolvedRequestInfo {
        path: specifier,
        module_type: ModuleDefFormat::Unknown,
        is_external: true,
        package_json: None,
        side_effects: None,
    }
}

/// One in-flight specifier resolution. Each non-final state says which
/// collaborator the driver must ask next.
#[derive(Debug, PartialEq, Eq)]
pub enum ResolveIdState {
    /// Waiting for the external-classifier called with `resolved = false`.
    PreExternalCheck { specifier: String, importer: String },
    /// Waiting for the plugin `resolveId` chain, falling back to the
    /// resolver's own algorithm.
    Resolving { specifier: String, importer: String },
    /// Waiting for the external-classifier called with `resolved = true`
    /// on an already-resolved, non-external request.
    PostExternalCheck { resolved: ResolvedRequestInfo },
    /// Terminal: the typed outcome for this specifier.
    Finished { outcome: Result<ResolvedRequestInfo, ResolveError> },
}

/// Start resolving one specifier.
///
/// With an external-classifier configured, the classifier is asked first,
/// before anything else. Without one, the reserved runtime specifier
/// finishes at once as an internal ESM module — neither the classifier nor
/// the resolver is ever consulted for it — and every other specifier goes
/// to the resolution chain.
pub fn begin_resolve(specifier: String, importer: String, has_external_classifier: bool) -> (s:
    ResolveIdState)
    ensures
        has_external_classifier ==> (s matches ResolveIdState::PreExternalCheck {
            specifier: sp,
            importer: im,
        } && sp == specifier && im == importer),
        !has_external_classifier && specifier@ == spec_runtime_module_id() ==> (s
            matches ResolveIdState::Finished { outcome: Ok(info) } && spec_runtime_info(
            info,
            specifier@,
        )),
        !has_external_classifier && specifier@ != spec_runtime_module_id() ==> (s
            matches ResolveIdState::Resolving { specifier: sp, importer: im } && sp == specifier
            && im == importer),
{
    if has_external_classifier {
        ResolveIdState::PreExternalCheck { specifier, importer }
    } else if is_runtime_specifier(specifier.as_str()) {
        ResolveIdState::Finished {
            outcome: Ok(
                ResolvedRequestInfo {
                    path: specifier,
                    module_type: ModuleDefFormat::EsmMjs,
                    is_external: false,
                    package_json: None,
                    side_effects: None,
                },
            ),
        }
    } else {
        ResolveIdState::Resolving { specifier, importer }
    }
}

/// Consume the classifier's pre-resolution answer.
///
/// An accepted specifier short-circuits: it finishes externalized with
/// format unknown, and the resolver is never consulted (no later state
/// waits for it). A rejected runtime specifier finishes as the internal
/// ESM runtime module; everything else proceeds to the resolution chain.
pub fn on_pre_external_check(s: ResolveIdState, accepted: bool) -> (t: ResolveIdState)
    requires
        s is PreExternalCheck,
    ensures
        accepted ==> (t matches ResolveIdState::Finished { outcome: Ok(info) }
            && spec_external_unknown(info, s->PreExternalCheck_specifier@)),
        !accepted && s->PreExternalCheck_specifier@ == spec_runtime_module_id() ==> (t
            matches ResolveIdState::Finished { outcome: Ok(info) } && spec_runtime_info(
            info,
            s->PreExternalCheck_specifier@,
        )),
        !accepted && s->PreExternalCheck_specifier@ != spec_runtime_module_id() ==> (t
            matches ResolveIdState::Resolving { specifier: sp, importer: im } && sp
            == s->PreExternalCheck_specifier && im == s->PreExternalCheck_importer),
{
    match s {
        ResolveIdState::PreExternalCheck { specifier, importer } => {
            if accepted {
                ResolveIdState::Finished { outcome: Ok(external_unknown_info(specifier)) }
            } else if is_runtime_specifier(specifier.as_str()) {
                ResolveIdState::Finished {
                    outcome: Ok(
                        ResolvedRequestInfo {
                            path: specifier,
                            module_type: ModuleDefFormat::EsmMjs,
                            is_external: false,
                            package_json: None,
                            side_effects: None,
                        },
                    ),
                }
            } else {
                ResolveIdState::Resolving { specifier, importer }
            }
        },
        _ => s,
    }
}

/// Consume the resolution chain's answer (first `resolveId` plugin to claim
/// the specifier, else the resolver's own result).
///
/// A typed failure is propagated unchanged. A successful resolution that is
/// already external — or one made with no classifier configured — is final;
/// otherwise the classifier is re-asked with `resolved = true` so it can
/// decide on the real file location.
pub fn on_resolution(
    s: ResolveIdState,
    answer: Result<ResolvedRequestInfo, ResolveError>,
    has_external_classifier: bool,
) -> (t: ResolveIdState)
    requires
        s is Resolving,
    ensures
        answer is Err ==> (t matches ResolveIdState::Finished { outcome: Err(e2) } && e2
            == answer->Err_0),
        answer is Ok && (answer->Ok_0.is_external || !has_external_classifier) ==> (t
            matches ResolveIdState::Finished { outcome: Ok(info2) } && info2 == answer->Ok_0),
        answer is Ok && !answer->Ok_0.is_external && has_external_classifier ==> (t
            matches ResolveIdState::PostExternalCheck { resolved } && resolved == answer->Ok_0),
{
    match answer {
        Ok(info) => {
            if !info.is_external && has_external_classifier {
                ResolveIdState::PostExternalCheck { resolved: info }
            } else {
                ResolveIdState::Finished { outcome: Ok(info) }
            }
        },
        Err(e) => ResolveIdState::Finished { outcome: Err(e) },
    }
}

/// Consume the classifier's post-resolution answer: the resolved request is
/// kept whole, with its externality flag set to the classifier's verdict.
pub fn on_post_external_check(s: ResolveIdState, accepted: bool) -> (t: ResolveIdState)
    requires
        s is PostExternalCheck,
    ensures
        t matches ResolveIdState::Finished { outcome: Ok(info) } && info == (ResolvedRequestInfo {
            is_external: accepted,
            ..s->PostExternalCheck_resolved
        }),
{
    match s {
        ResolveIdState::PostExternalCheck { resolved } => {
            ResolveIdState::Finished {
                outcome: Ok(ResolvedRequestInfo { is_external: accepted, ..resolved }),
            }
        },
        _ => s,
    }
}

} // verus!
