//! Rustwide models the orchestration of reproducible, sandboxed builds of Rust
//! packages: command construction and output handling, sandbox configuration,
//! package sources and their caches, manifest rewriting, the preparation
//! pipeline, and the toolchain model.
//!
//! Everything that decides or computes lives here with a verified contract;
//! the thin layer that actually spawns processes and touches the filesystem
//! is kept outside the library and feeds it plain values.

pub mod build_dir;
pub mod cmd;
pub mod crates;
pub mod inside_docker;
pub mod manifest;
pub mod native;
pub mod prepare;
pub mod text;
pub mod tools;
pub mod toolchain;
pub mod utils;
pub mod workspace;
