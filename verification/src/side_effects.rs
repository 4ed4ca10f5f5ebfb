//! Side-effect classification for one module.
//!
//! The precedence is: a plugin hook's declaration first (where `True` only
//! defers to the next source), then the package.json declaration, then the
//! statement-level analysis of the scanner. Exactly one classification
//! results per module, computed once.
use vstd::prelude::*;

use crate::records::{HookSideEffects, PackageJson, StmtInfo};

verus! {

/// The tri-state decision governing whether an unused module's top-level
/// code may be eliminated.
#[derive(Clone, Copy, Debug, PartialEq, Eq, Structural)]
pub enum DeterminedSideEffects {
    /// Explicit override from a hook or from package.json.
    UserDefined(bool),
    /// Derived from the scanner's per-statement side-effect flags.
    Analyzed(bool),
    /// Tree shaking is disabled outright for this module.
    NoTreeshake,
}

/// Whether any scanned statement is flagged as side-effecting.
pub open spec fn spec_any_stmt_side_effect(stmts: Seq<StmtInfo>) -> bool {
    exists|i: int| 0 <= i < stmts.len() && stmts[i].side_effect
}

/// The full precedence rule. `pkg` is the package.json declaration for this
/// module's stable path, if present.
pub open spec fn spec_determined_side_effects(
    hook: Option<HookSideEffects>,
    pkg: Option<bool>,
    analyzed: bool,
) -> DeterminedSideEffects {
    match hook {
        Some(HookSideEffects::False) => DeterminedSideEffects::UserDefined(false),
        Some(HookSideEffects::NoTreeshake) => DeterminedSideEffects::NoTreeshake,
        _ => match pkg {
            Some(b) => DeterminedSideEffects::UserDefined(b),
            None => DeterminedSideEffects::Analyzed(analyzed),
        },
    }
}

/// Classify one module's side effects.
///
/// The hook declaration wins outright when it says `False` or `NoTreeshake`;
/// a hook `True` and an absent hook both fall through to the package.json
/// declaration, and only when that is absent too does the statement scan
/// decide. Package metadata wins over the statement scan even when the two
/// disagree.
pub fn determine_side_effects(
    hook: Option<HookSideEffects>,
    package_json: &Option<PackageJson>,
    stmt_infos: &Vec<StmtInfo>,
) -> (r: DeterminedSideEffects)
    ensures
        r == spec_determined_side_effects(
            hook,
            spec_package_side_effects(*package_json),
            spec_any_stmt_side_effect(stmt_infos@),
        ),
{
    match hook {
        Some(HookSideEffects::False) => DeterminedSideEffects::UserDefined(false),
        Some(HookSideEffects::NoTreeshake) => DeterminedSideEffects::NoTreeshake,
        _ => lazy_check_side_effects(package_json, stmt_infos),
    }
}

/// The package.json declaration seen by the precedence rule.
pub open spec fn spec_package_side_effects(pkg: Option<PackageJson>) -> Option<bool> {
    match pkg {
        Some(p) => p.side_effects,
        None => None,
    }
}

/// The two lower-precedence sources, consulted only when no hook
/// declaration already decided.
fn lazy_check_side_effects(
    package_json: &Option<PackageJson>,
    stmt_infos: &Vec<StmtInfo>,
) -> (r: DeterminedSideEffects)
    ensures
        r == spec_determined_side_effects(
            None,
            spec_package_side_effects(*package_json),
            spec_any_stmt_side_effect(stmt_infos@),
        ),
{
    match package_json {
        Some(p) => match p.side_effects {
            Some(b) => DeterminedSideEffects::UserDefined(b),
            None => DeterminedSideEffects::Analyzed(any_stmt_side_effect(stmt_infos)),
        },
        None => DeterminedSideEffects::Analyzed(any_stmt_side_effect(stmt_infos)),
    }
}

/// Scan the statement flags for one that is side-effecting.
fn any_stmt_side_effect(stmt_infos: &Vec<StmtInfo>) -> (r: bool)
    ensures
        r == spec_any_stmt_side_effect(stmt_infos@),
{
    let mut i: usize = 0;
    while i < stmt_infos.len()
        invariant
            0 <= i <= stmt_infos@.len(),
            forall|j: int| 0 <= j < i ==> !stmt_infos@[j].side_effect,
        decreases stmt_infos@.len() - i,
    {
        if stmt_infos[i].side_effect {
            return true;
        }
        i += 1;
    }
    false
}

} // verus!
