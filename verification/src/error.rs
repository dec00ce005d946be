//! Why building an engine, compiling a guest or preparing a store failed.

use vstd::prelude::*;

verus! {

/// The step that failed, with wasmtime's error for it.
#[derive(Debug)]
pub enum RuntimeError {
    /// The engine refused the configuration.
    Engine(wasmtime::Error),
    /// The bytes did not compile to a module or component.
    Compile(wasmtime::Error),
    /// Defining the host functions in the linker failed.
    HostFunctions(wasmtime::Error),
    /// The linker could not satisfy the guest's imports.
    Link(wasmtime::Error),
    /// The store's fuel could not be set up.
    Fuel(wasmtime::Error),
}

impl RuntimeError {
    /// wasmtime's error for the failed step.
    pub open spec fn cause(&self) -> wasmtime::Error {
        match self {
            RuntimeError::Engine(e) => *e,
            RuntimeError::Compile(e) => *e,
            RuntimeError::HostFunctions(e) => *e,
            RuntimeError::Link(e) => *e,
            RuntimeError::Fuel(e) => *e,
        }
    }

    /// Gives up the step and keeps wasmtime's error.
    pub fn into_cause(self) -> (r: wasmtime::Error)
        ensures
            r == self.cause(),
    {
        match self {
            RuntimeError::Engine(e) => e,
            RuntimeError::Compile(e) => e,
            RuntimeError::HostFunctions(e) => e,
            RuntimeError::Link(e) => e,
            RuntimeError::Fuel(e) => e,
        }
    }
}

} // verus!
