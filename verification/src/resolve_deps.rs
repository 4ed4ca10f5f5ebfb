//! The fan-in half of the dependency-resolution protocol.
//!
//! The driver launches one resolution job per import record and waits for
//! all of them — no early cancellation, so every specifier gets an attempt.
//! `finish_resolutions` then partitions the collected outcomes: "not found"
//! failures are downgraded to externalized dependencies with a warning,
//! while every other failure is batched so one report names all offending
//! specifiers at once.
use vstd::prelude::*;

use crate::records::{BuildError, RawImportRecord, ResolveError, ResolvedRequestInfo};
use crate::resolve_id::{external_unknown_info, spec_external_unknown};

verus! {

/// One import record whose resolution failed for a reason other than
/// "not found"; a batch of these aborts the whole module.
#[derive(Clone, Debug, PartialEq, Eq)]
pub struct ResolutionFailure {
    pub specifier: String,
    pub error: ResolveError,
}

/// A failure that cannot be downgraded: any typed error but "not found".
pub open spec fn spec_is_fatal(o: Result<ResolvedRequestInfo, ResolveError>) -> bool {
    o is Err && !(o->Err_0 is NotFound)
}

/// A "not found" failure, downgraded to an externalized dependency.
pub open spec fn spec_is_downgraded(o: Result<ResolvedRequestInfo, ResolveError>) -> bool {
    o is Err && o->Err_0 is NotFound
}

/// Number of fatal outcomes among the first `n`.
pub open spec fn spec_fatal_count(
    outcomes: Seq<Result<ResolvedRequestInfo, ResolveError>>,
    n: int,
) -> int
    decreases n,
{
    if n <= 0 {
        0
    } else {
        spec_fatal_count(outcomes, n - 1) + if spec_is_fatal(outcomes[n - 1]) {
            1int
        } else {
            0int
        }
    }
}

/// Number of downgraded outcomes among the first `n`.
pub open spec fn spec_downgrade_count(
    outcomes: Seq<Result<ResolvedRequestInfo, ResolveError>>,
    n: int,
) -> int
    decreases n,
{
    if n <= 0 {
        0
    } else {
        spec_downgrade_count(outcomes, n - 1) + if spec_is_downgraded(outcomes[n - 1]) {
            1int
        } else {
            0int
        }
    }
}

/// The warning recorded for one downgraded specifier of one importer.
pub open spec fn spec_downgrade_warning(
    w: BuildError,
    specifier: Seq<char>,
    importer: Seq<char>,
) -> bool {
    &&& w matches BuildError::UnresolvedImportTreatedAsExternal { specifier: s, importer: im }
    &&& s@ == specifier
    &&& im@ == importer
}

/// The batch entry recorded for one fatally failing specifier.
pub open spec fn spec_failure_entry(f: ResolutionFailure, specifier: Seq<char>, e: ResolveError) -> bool {
    f.specifier@ == specifier && f.error == e
}

/// `w` is the downgrade warning of some not-found outcome among the first
/// `n`: no warning is invented.
pub open spec fn spec_warning_justified(
    w: BuildError,
    records: Seq<RawImportRecord>,
    outcomes: Seq<Result<ResolvedRequestInfo, ResolveError>>,
    importer: Seq<char>,
    n: int,
) -> bool {
    exists|j: int|
        0 <= j < n && spec_is_downgraded(outcomes[j]) && spec_downgrade_warning(
            w,
            records[j].module_request@,
            importer,
        )
}

/// `f` is the batch entry of some fatal outcome among the first `n`:
/// no failure is invented.
pub open spec fn spec_failure_justified(
    f: ResolutionFailure,
    records: Seq<RawImportRecord>,
    outcomes: Seq<Result<ResolvedRequestInfo, ResolveError>>,
    n: int,
) -> bool {
    exists|j: int|
        0 <= j < n && spec_is_fatal(outcomes[j]) && spec_failure_entry(
            f,
            records[j].module_request@,
            outcomes[j]->Err_0,
        )
}

proof fn lemma_fatal_count_zero(outcomes: Seq<Result<ResolvedRequestInfo, ResolveError>>, n: int)
    requires
        0 <= n <= outcomes.len(),
    ensures
        spec_fatal_count(outcomes, n) >= 0,
        (spec_fatal_count(outcomes, n) == 0) <==> (forall|j: int|
            0 <= j < n ==> !spec_is_fatal(outcomes[j])),
    decreases n,
{
    if n > 0 {
        lemma_fatal_count_zero(outcomes, n - 1);
    }
}

/// Rebuild a resolved request so the copy is equal, field for field, to the
/// original (a derived clone would tell the verifier nothing).
pub fn copy_info(info: &ResolvedRequestInfo) -> (r: ResolvedRequestInfo)
    ensures
        r == *info,
{
    ResolvedRequestInfo {
        path: info.path.clone(),
        module_type: info.module_type,
        is_external: info.is_external,
        package_json: info.package_json,
        side_effects: info.side_effects,
    }
}

/// Rebuild a typed resolution error, equal to the original.
pub fn copy_error(e: &ResolveError) -> (r: ResolveError)
    ensures
        r == *e,
{
    match e {
        ResolveError::NotFound(s) => ResolveError::NotFound(s.clone()),
        ResolveError::Recursion(s) => ResolveError::Recursion(s.clone()),
        ResolveError::PackagePathNotExported(s) => ResolveError::PackagePathNotExported(s.clone()),
    }
}

/// Partition the collected resolution outcomes of one module.
///
/// Succeeds exactly when no outcome failed fatally. On success the
/// dependency array is index-aligned with the import records — a "not
/// found" entry degrades to an externalized dependency instead of
/// shrinking the array — and carries one warning per downgraded
/// specifier, naming that specifier and the importing module. On failure
/// the batch lists every fatally failing specifier with its typed error,
/// so the caller reports them all in one message.
pub fn finish_resolutions(
    records: &Vec<RawImportRecord>,
    outcomes: &Vec<Result<ResolvedRequestInfo, ResolveError>>,
    importer: &str,
) -> (r: Result<(Vec<ResolvedRequestInfo>, Vec<BuildError>), Vec<ResolutionFailure>>)
    requires
        outcomes@.len() == records@.len(),
    ensures
        (r is Ok) <==> (forall|j: int| 0 <= j < outcomes@.len() ==> !spec_is_fatal(outcomes@[j])),
        r matches Ok(pair) ==> {
            &&& pair.0@.len() == records@.len()
            &&& forall|j: int|
                0 <= j < outcomes@.len() && outcomes@[j] is Ok ==> pair.0@[j] == outcomes@[j]->Ok_0
            &&& forall|j: int|
                0 <= j < outcomes@.len() && outcomes@[j] is Err ==> spec_external_unknown(
                    pair.0@[j],
                    records@[j].module_request@,
                )
            &&& pair.1@.len() == spec_downgrade_count(outcomes@, outcomes@.len() as int)
            &&& forall|j: int|
                0 <= j < outcomes@.len() && spec_is_downgraded(outcomes@[j]) ==> exists|k: int|
                    0 <= k < pair.1@.len() && spec_downgrade_warning(
                        pair.1@[k],
                        records@[j].module_request@,
                        importer@,
                    )
            &&& forall|k: int|
                0 <= k < pair.1@.len() ==> spec_warning_justified(
                    #[trigger] pair.1@[k],
                    records@,
                    outcomes@,
                    importer@,
                    outcomes@.len() as int,
                )
        },
        r matches Err(failures) ==> {
            &&& failures@.len() == spec_fatal_count(outcomes@, outcomes@.len() as int)
            &&& failures@.len() > 0
            &&& forall|j: int|
                0 <= j < outcomes@.len() && spec_is_fatal(outcomes@[j]) ==> exists|k: int|
                    0 <= k < failures@.len() && spec_failure_entry(
                        failures@[k],
                        records@[j].module_request@,
                        outcomes@[j]->Err_0,
                    )
            &&& forall|k: int|
                0 <= k < failures@.len() ==> spec_failure_justified(
                    #[trigger] failures@[k],
                    records@,
                    outcomes@,
                    outcomes@.len() as int,
                )
        },
{
    let mut deps: Vec<ResolvedRequestInfo> = Vec::new();
    let mut warns: Vec<BuildError> = Vec::new();
    let mut failures: Vec<ResolutionFailure> = Vec::new();
    let mut i: usize = 0;
    while i < outcomes.len()
        invariant
            0 <= i <= outcomes@.len(),
            outcomes@.len() == records@.len(),
            failures@.len() == spec_fatal_count(outcomes@, i as int),
            spec_fatal_count(outcomes@, i as int) == 0 ==> {
                &&& deps@.len() == i
                &&& forall|j: int|
                    0 <= j < i && outcomes@[j] is Ok ==> deps@[j] == outcomes@[j]->Ok_0
                &&& forall|j: int|
                    0 <= j < i && outcomes@[j] is Err ==> spec_external_unknown(
                        deps@[j],
                        records@[j].module_request@,
                    )
            },
            warns@.len() == spec_downgrade_count(outcomes@, i as int),
            forall|j: int|
                0 <= j < i && spec_is_downgraded(outcomes@[j]) ==> exists|k: int|
                    0 <= k < warns@.len() && spec_downgrade_warning(
                        warns@[k],
                        records@[j].module_request@,
                        importer@,
                    ),
            forall|k: int|
                0 <= k < warns@.len() ==> spec_warning_justified(
                    #[trigger] warns@[k],
                    records@,
                    outcomes@,
                    importer@,
                    i as int,
                ),
            forall|j: int|
                0 <= j < i && spec_is_fatal(outcomes@[j]) ==> exists|k: int|
                    0 <= k < failures@.len() && spec_failure_entry(
                        failures@[k],
                        records@[j].module_request@,
                        outcomes@[j]->Err_0,
                    ),
            forall|k: int|
                0 <= k < failures@.len() ==> spec_failure_justified(
                    #[trigger] failures@[k],
                    records@,
                    outcomes@,
                    i as int,
                ),
        decreases outcomes@.len() - i,
    {
        let ghost warns_before = warns@;
        let ghost failures_before = failures@;
        match &outcomes[i] {
            Ok(info) => {
                deps.push(copy_info(info));
            },
            Err(e) => {
                if e.is_not_found() {
                    warns.push(
                        BuildError::UnresolvedImportTreatedAsExternal {
                            specifier: records[i].module_request.clone(),
                            importer: importer.to_owned(),
                        },
                    );
                    deps.push(external_unknown_info(records[i].module_request.clone()));
                    proof {
                        assert(warns@ == warns_before.push(warns@[warns_before.len() as int]));
                        assert(spec_downgrade_warning(
                            warns@[warns_before.len() as int],
                            records@[i as int].module_request@,
                            importer@,
                        ));
                        assert(forall|k: int|
                            0 <= k < warns_before.len() ==> warns@[k] == warns_before[k]);
                    }
                } else {
                    failures.push(
                        ResolutionFailure {
                            specifier: records[i].module_request.clone(),
                            error: copy_error(e),
                        },
                    );
                    proof {
                        assert(spec_failure_entry(
                            failures@[failures_before.len() as int],
                            records@[i as int].module_request@,
                            outcomes@[i as int]->Err_0,
                        ));
                        assert(forall|k: int|
                            0 <= k < failures_before.len() ==> failures@[k] == failures_before[k]);
                    }
                }
            },
        }
        proof {
            assert forall|k: int| 0 <= k < warns@.len() implies spec_warning_justified(
                #[trigger] warns@[k],
                records@,
                outcomes@,
                importer@,
                i + 1,
            ) by {
                if k < warns_before.len() {
                    assert(warns@[k] == warns_before[k]);
                    assert(spec_warning_justified(
                        warns_before[k],
                        records@,
                        outcomes@,
                        importer@,
                        i as int,
                    ));
                    let j0 = choose|j: int|
                        0 <= j < i && spec_is_downgraded(outcomes@[j]) && spec_downgrade_warning(
                            warns_before[k],
                            records@[j].module_request@,
                            importer@,
                        );
                    assert(0 <= j0 < i + 1 && spec_is_downgraded(outcomes@[j0])
                        && spec_downgrade_warning(
                        warns@[k],
                        records@[j0].module_request@,
                        importer@,
                    ));
                } else {
                    assert(spec_is_downgraded(outcomes@[i as int]));
                    assert(spec_downgrade_warning(
                        warns@[k],
                        records@[i as int].module_request@,
                        importer@,
                    ));
                }
            }
            assert forall|k: int| 0 <= k < failures@.len() implies spec_failure_justified(
                #[trigger] failures@[k],
                records@,
                outcomes@,
                i + 1,
            ) by {
                if k < failures_before.len() {
                    assert(failures@[k] == failures_before[k]);
                    assert(spec_failure_justified(
                        failures_before[k],
                        records@,
                        outcomes@,
                        i as int,
                    ));
                    let j0 = choose|j: int|
                        0 <= j < i && spec_is_fatal(outcomes@[j]) && spec_failure_entry(
                            failures_before[k],
                            records@[j].module_request@,
                            outcomes@[j]->Err_0,
                        );
                    assert(0 <= j0 < i + 1 && spec_is_fatal(outcomes@[j0]) && spec_failure_entry(
                        failures@[k],
                        records@[j0].module_request@,
                        outcomes@[j0]->Err_0,
                    ));
                } else {
                    assert(spec_is_fatal(outcomes@[i as int]));
                    assert(spec_failure_entry(
                        failures@[k],
                        records@[i as int].module_request@,
                        outcomes@[i as int]->Err_0,
                    ));
                }
            }
        }
        i += 1;
    }
    proof {
        lemma_fatal_count_zero(outcomes@, outcomes@.len() as int);
    }
    if failures.len() == 0 {
        Ok((deps, warns))
    } else {
        Err(failures)
    }
}

} // verus!
