//! A store together with the record of how the library set it up and of the
//! data it owns.

use vstd::prelude::*;
use wasmtime::{Engine, Store};

verus! {

/// A `wasmtime::Store` with the engine it belongs to, the record of the fuel
/// the library poured into it, the yield interval it set, whether it made
/// the store's data the resource limiter, and the data the store owns while
/// only the library has touched it.
#[verifier::reject_recursive_types(T)]
pub struct FueledStore<T: 'static> {
    pub(crate) store: Store<T>,
    pub(crate) engine: Ghost<Engine>,
    pub(crate) fuel: Ghost<Option<u64>>,
    pub(crate) interval: Ghost<Option<Option<u64>>>,
    pub(crate) limited: Ghost<bool>,
    pub(crate) data: Ghost<T>,
    pub(crate) data_known: Ghost<bool>,
}

impl<T: 'static> FueledStore<T> {
    /// The store.
    pub closed spec fn spec_store(&self) -> Store<T> {
        self.store
    }

    /// The engine the store was created for.
    pub closed spec fn spec_engine(&self) -> Engine {
        self.engine@
    }

    /// The fuel last poured in by the library, if any.
    pub closed spec fn poured_fuel(&self) -> Option<u64> {
        self.fuel@
    }

    /// The async yield interval the library set, if it set one.
    pub closed spec fn yield_interval(&self) -> Option<Option<u64>> {
        self.interval@
    }

    /// Whether the library made the store's data its resource limiter.
    pub closed spec fn limited_by_data(&self) -> bool {
        self.limited@
    }

    /// The data the store owns; it is that value while `data_known()`.
    pub closed spec fn spec_data(&self) -> T {
        self.data@
    }

    /// Whether the store was left to code outside the library (handed out
    /// mutably) since its data was last known; while not, the data the store
    /// owns is `spec_data()`.
    pub closed spec fn data_known(&self) -> bool {
        self.data_known@
    }

    /// The store, to read.
    pub fn store(&self) -> (r: &Store<T>)
        ensures
            *r == self.spec_store(),
    {
        &self.store
    }

    /// The store, to instantiate or run guest code in. Guest code may change
    /// the data, so it is no longer known afterwards; the record of the set-up
    /// stays.
    pub fn store_mut(&mut self) -> (r: &mut Store<T>)
        ensures
            *r == old(self).spec_store(),
            final(self).spec_store() == *final(r),
            final(self).spec_engine() == old(self).spec_engine(),
            final(self).poured_fuel() == old(self).poured_fuel(),
            final(self).yield_interval() == old(self).yield_interval(),
            final(self).limited_by_data() == old(self).limited_by_data(),
            !final(self).data_known(),
    {
        self.data_known = Ghost(false);
        &mut self.store
    }
}

} // verus!
