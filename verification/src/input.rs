//! The input options the engine is configured with, as plain data.
//!
//! The host may supply an external-classifier callback; the library only
//! reads its presence (the driver calls the callback itself and feeds each
//! verdict back through the resolution protocol).
use vstd::prelude::*;

use crate::records::ModuleType;

verus! {

/// One entry point: an optional display name and the import specifier.
#[derive(Debug, PartialEq, Eq, Default)]
pub struct InputItem {
    pub name: Option<String>,
    pub import: String,
}

/// The configuration shared, read-only, by every task of one build.
#[derive(Debug, PartialEq, Eq)]
pub struct InputOptions {
    /// Whether an external-classifier callback is configured; the
    /// resolution protocol asks it first when it is.
    pub has_external_classifier: bool,
    /// The entry points of the build.
    pub input: Vec<InputItem>,
    /// The working directory stable identifiers are spelled relative to.
    pub cwd: String,
    /// The extension-to-content-type table.
    pub module_types: Vec<(String, ModuleType)>,
}

} // verus!
