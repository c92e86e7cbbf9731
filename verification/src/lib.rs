//! Extraction of a normalized inventory of a library's public API surface
//! from an already-parsed declaration tree: a collecting tree walk over typed
//! declaration nodes, and a one-pass aggregate report over the collected
//! records.

pub mod decl;
pub mod laws;
pub mod meta;
pub mod record;
pub mod report;
pub mod collector;
pub mod signature;
