//! A module of a bundler's module federation that consumes a shared
//! dependency: its identity, its build-time fallback edges and the loader
//! call that its generated code makes.

pub mod json;
pub mod options;
pub mod fingerprint;
pub mod runtime_globals;
pub mod consume_shared_module;
pub mod laws;
