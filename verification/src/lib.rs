//! Locating, installing and invoking external WebAssembly binary tools.
//!
//! The crate resolves a tool first on the local search path, then through a
//! platform-specific download of a precompiled artifact, and plans the
//! subprocess invocations that apply the tool to input files.

pub mod executor;
pub mod generate;
pub mod fetch;
pub mod platform;
pub mod text;
pub mod wasm_toolkit;
