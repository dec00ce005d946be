//! Embedding of the wasmtime engine for lunatic processes: engine settings,
//! compilation of core modules and WASI Preview 2 components, store set-up,
//! and the classification of what a guest call ends with.

pub mod component;
pub mod error;
pub mod laws;
pub mod outcome;
pub mod outside;
pub mod raw_wasm;
pub mod runtime;
pub mod settings;
pub mod state;
pub mod store;
mod wasmtime_calls;
