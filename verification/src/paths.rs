//! Stable resource identifiers.
//!
//! A module's resolved path is absolute; its *stable* identifier is the
//! deterministic, cwd-relative spelling used for cross-run caching and for
//! package.json side-effect lookups. The lexical relative-path computation
//! itself comes from the `sugar_path` crate.
use sugar_path::SugarPath;
use vstd::prelude::*;

verus! {

/// Whether `p` spells an absolute path (it starts with the path separator).
pub open spec fn spec_is_absolute(p: Seq<char>) -> bool {
    p.len() > 0 && p[0] == '/'
}

/// Whether `p` spells an absolute path.
pub fn is_absolute_path(p: &str) -> (r: bool)
    ensures
        r == spec_is_absolute(p@),
{
    if p.is_empty() {
        false
    } else {
        p.get_char(0) == '/'
    }
}

/// What `sugar_path` computes when asked for `path` relative to `base`:
/// a purely lexical function of the two spellings.
pub uninterp spec fn relative_of(path: Seq<char>, base: Seq<char>) -> Seq<char>;

/// Relies on sugar_path's `SugarPath::relative`: for two absolute paths it
/// is a purely lexical, deterministic computation that never consults the
/// process's current directory and never fails.
#[verifier::external_body]
fn relative_path(path: &str, base: &str) -> (r: String)
    requires
        spec_is_absolute(path@),
        spec_is_absolute(base@),
    ensures
        r@ == relative_of(path@, base@),
{
    std::path::Path::new(path).relative(base).to_string_lossy().into_owned()
}

/// The stable identifier of a resolved path under `cwd`: the cwd-relative
/// spelling when both are absolute, the path itself otherwise (virtual
/// modules and externalized specifiers keep their raw spelling).
pub open spec fn spec_stable_id(path: Seq<char>, cwd: Seq<char>) -> Seq<char> {
    if spec_is_absolute(path) && spec_is_absolute(cwd) {
        relative_of(path, cwd)
    } else {
        path
    }
}

/// Stabilize one resolved path against the configured `cwd`.
pub fn stabilize_resource_id(path: &str, cwd: &str) -> (r: String)
    ensures
        r@ == spec_stable_id(path@, cwd@),
{
    if is_absolute_path(path) && is_absolute_path(cwd) {
        relative_path(path, cwd)
    } else {
        path.to_owned()
    }
}

} // verus!
