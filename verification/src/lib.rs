//! Variable resolution pipeline for a project-scaffolding tool.
//!
//! A template declares an ordered list of variables; each one is resolved to a
//! concrete value from exactly one of three input sources: an interactive
//! answer, a value supplied in a JSON document, or the computed default.
//! Applicability and defaults of later declarations may depend on the values
//! resolved for earlier ones, so declarations are always processed in order.
//! The crate also provides the fail-fast runner for pre- and post-generation
//! hooks.

pub mod values;
pub mod decls;
pub mod json;
pub mod prompt_run;
pub mod json_run;
pub mod errors;
pub mod hooks;
pub mod cli;
pub mod parse;
pub mod resolver;
pub mod laws;
