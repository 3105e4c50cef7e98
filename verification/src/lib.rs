//! An embedded file that behaves identically whether its bytes were baked
//! into the binary ahead of time or are read from disk on demand.
//!
//! The heart of the crate is the dual-mode content resolution of [`file::File`]:
//! the production strategy hands out the embedded bytes directly, while the
//! development strategy consults a process-wide, append-only
//! [`cache::RuntimeContentCache`] that memoizes whole-file disk reads for the
//! remainder of the process.

pub mod cache;
pub mod file;
pub mod metadata;
pub mod render;
