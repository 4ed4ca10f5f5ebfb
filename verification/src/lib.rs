//! Module-loading core of a JavaScript/TypeScript bundler.
//!
//! For every module discovered while walking the dependency graph, a
//! `NormalModuleTask` drives a pipeline: load source text, transform it,
//! parse and scan it, resolve every import specifier, classify the module's
//! side effects, and emit exactly one terminal message to the graph builder.
//! The asynchronous collaborators (plugin hooks, the path resolver, the file
//! system) live outside this crate; the driver feeds their answers in as
//! events, and every decision between those answers is verified here.

pub mod base64;
pub mod dataurl;
pub mod input;
pub mod paths;
pub mod records;
pub mod resolve_deps;
pub mod resolve_id;
pub mod side_effects;
pub mod task;
