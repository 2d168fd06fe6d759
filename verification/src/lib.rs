//! Identifier-substitution and template-materialization engine.
//!
//! The crate turns a generic project template into a concretely named
//! project: it models the external fetch command as an event-driven
//! runner, rewrites placeholder identifiers across the five common
//! naming conventions, renames directory entries, and sequences those
//! steps as a linear pipeline with a terminal failure state.

pub mod cli;
pub mod errors;
pub mod nix;
pub mod pipeline;
pub mod query;
pub mod patch;
pub mod paths;
pub mod runner;
pub mod words;
