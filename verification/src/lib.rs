//! Core of a plugin registry: publishing plugins, creating semver-ordered
//! versions, yanking broken versions, unpublishing plugins, and keeping a
//! blob store (icons, wasm modules, theme texts) consistent with the
//! metadata rows that describe them.
//!
//! The heart of the crate is the [`registry::Repository`] capability and
//! its verified in-memory implementation [`registry::MemoryRepository`]:
//! every operation's contract is stated against a mathematical model of
//! the registry, and [`laws`] proves the properties that hold across
//! calls — version ordering, idempotence of deletes, uniqueness of names.

pub mod blob;
pub mod data;
pub mod digest;
pub mod errors;
pub mod find;
pub mod icon;
pub mod info;
pub mod laws;
pub mod naming;
pub mod paths;
pub mod registry;
pub mod routes;
pub mod versions;
pub mod wasm_store;
