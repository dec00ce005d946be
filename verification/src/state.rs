//! What the runtime asks of the state that a module process keeps in its store.

use vstd::prelude::*;
use wasmtime::Linker;

verus! {

/// The data of a module process's store. Each kind of process implements it:
/// it names the host functions the process may import, the fuel it may burn,
/// and what to do once its instance exists.
pub trait ProcessState: Sized {
    /// Defines the host functions of this kind of process in `linker`.
    fn register(linker: &mut Linker<Self>) -> Result<(), wasmtime::Error>;

    /// The fuel the process may burn in all, or `None` for no limit.
    spec fn spec_max_fuel(&self) -> Option<u64>;

    /// Reports `spec_max_fuel()`.
    fn max_fuel(&self) -> (r: Option<u64>)
        ensures
            r == self.spec_max_fuel(),
    ;

    /// Whether the state belongs to an instantiated process.
    spec fn spec_initialized(&self) -> bool;

    /// Marks the state as belonging to an instantiated process.
    fn initialize(&mut self)
        ensures
            final(self).spec_initialized(),
    ;
}

} // verus!
