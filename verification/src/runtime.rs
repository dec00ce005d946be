//! The engine, and the classic path: core modules linked against the host
//! functions of a `ProcessState`, and their instances.

use std::sync::Arc;
use vstd::prelude::*;
use wasmtime::{Engine, Func, Instance, InstancePre, Module, Store};

use crate::error::RuntimeError;
use crate::outcome::{
    call_result, ends_call, not_found_message, not_found_text, ExecutionResult, ResultValue,
};
use crate::raw_wasm::RawWasm;
use crate::settings::{
    fuel_budget, fuel_budget_of, AllocationStrategy, EngineConfig, UNIT_OF_COMPUTE_IN_INSTRUCTIONS,
};
use crate::store::FueledStore;
use crate::state::ProcessState;
use crate::wasmtime_calls::{
    arc_share, declared_exports, engine_allocates_on_demand, engine_clone, engine_meters_fuel,
    engine_new, linker_instantiate_pre, module_compiles, HostLinker, module_engine,
    module_export_list, module_exports, module_new, store_data_mut,
    store_fuel_async_yield_interval, store_into_data, store_limit_by_data, store_new,
    store_set_fuel,
};

verus! {

/// What kind of item a module exports.
#[derive(Clone, Copy, Debug, PartialEq, Eq, Structural)]
pub enum ExportKind {
    Func,
    Global,
    Table,
    Memory,
    Tag,
}

/// An export of a compiled module: its name and kind.
#[derive(Clone, Debug, PartialEq, Eq)]
pub struct ModuleExport {
    pub name: String,
    pub kind: ExportKind,
}

impl View for ModuleExport {
    type V = (Seq<char>, ExportKind);

    open spec fn view(&self) -> (Seq<char>, ExportKind) {
        (self.name@, self.kind)
    }
}

/// A wasmtime engine that compiles and runs lunatic guests.
pub struct WasmtimeRuntime {
    engine: Engine,
}

impl WasmtimeRuntime {
    /// The engine that compiles this runtime's guests.
    pub closed spec fn spec_engine(&self) -> Engine {
        self.engine
    }

    /// The engine, for the component path.
    pub(crate) fn engine_ref(&self) -> (r: &Engine)
        ensures
            *r == self.spec_engine(),
    {
        &self.engine
    }

    /// Builds the engine for `config`: fuel metering and the allocation
    /// strategy are the ones the config set. The only failure is the
    /// engine's, which also depends on the host machine.
    pub fn new(config: &EngineConfig) -> (r: Result<WasmtimeRuntime, RuntimeError>)
        ensures
            r matches Ok(rt) ==> (config.record().consume_fuel matches Some(b)
                ==> engine_meters_fuel(rt.spec_engine()) == b),
            r matches Ok(rt) ==> (config.record().allocation matches Some(a)
                ==> engine_allocates_on_demand(rt.spec_engine()) == (a
                == AllocationStrategy::OnDemand)),
            r matches Err(e) ==> e is Engine,
    {
        match engine_new(config) {
            Ok(engine) => Ok(WasmtimeRuntime { engine }),
            Err(e) => Err(RuntimeError::Engine(e)),
        }
    }

    /// Compiles a wasm module to machine code and type-checks its imports
    /// against the host functions of `T`. The compiled module keeps `data`
    /// as its source. A failure names its step: compilation, the definition
    /// of the host functions, or the linking of the imports.
    pub fn compile_module<T: ProcessState + 'static>(&self, data: RawWasm) -> (r: Result<
        WasmtimeCompiledModule<T>,
        RuntimeError,
    >)
        ensures
            r matches Ok(m) ==> {
                &&& m.spec_source() == data
                &&& module_engine(m.spec_module()) == self.spec_engine()
                &&& module_export_list(m.spec_module()) == declared_exports(data@)
            },
            r matches Err(e) ==> (e is Compile || e is HostFunctions || e is Link),
            r matches Err(e) ==> (e is Compile <==> !module_compiles(self.spec_engine(), data@)),
    {
        let module = match module_new(&self.engine, data.as_slice()) {
            Ok(module) => module,
            Err(e) => return Err(RuntimeError::Compile(e)),
        };
        let mut linker = HostLinker::<T>::new(&self.engine);
        match linker.register_host_functions() {
            Ok(()) => {},
            Err(e) => return Err(RuntimeError::HostFunctions(e)),
        }
        let instance_pre = match linker_instantiate_pre(&linker, &module) {
            Ok(instance_pre) => instance_pre,
            Err(e) => return Err(RuntimeError::Link(e)),
        };
        Ok(WasmtimeCompiledModule::new(data, module, instance_pre))
    }

    /// A store for a module process: resource creation is limited by the
    /// state itself, the fuel poured in is the state's limit (or as much as
    /// the store holds when it has none), and the guest yields to the async
    /// scheduler every unit of compute. A failure can only be the fuel's.
    pub fn new_module_store<T>(&self, state: T) -> (r: Result<FueledStore<T>, RuntimeError>) where
        T: ProcessState + Send + wasmtime::ResourceLimiter + 'static,

        ensures
            r is Ok <==> engine_meters_fuel(self.spec_engine()),
            r matches Ok(s) ==> {
                &&& s.spec_engine() == self.spec_engine()
                &&& s.poured_fuel() == Some(fuel_budget_of(state.spec_max_fuel()))
                &&& s.yield_interval() == Some(Some(UNIT_OF_COMPUTE_IN_INSTRUCTIONS))
                &&& s.limited_by_data()
                &&& s.data_known()
                &&& s.spec_data() == state
            },
            r matches Err(e) ==> e is Fuel,
    {
        let max_fuel = state.max_fuel();
        let mut store = store_new(&self.engine, state);
        store_limit_by_data(&mut store);
        match store_set_fuel(&mut store, fuel_budget(max_fuel)) {
            Ok(()) => {},
            Err(e) => return Err(RuntimeError::Fuel(e)),
        }
        match store_fuel_async_yield_interval(&mut store, Some(UNIT_OF_COMPUTE_IN_INSTRUCTIONS)) {
            Ok(()) => {},
            Err(e) => return Err(RuntimeError::Fuel(e)),
        }
        Ok(store)
    }
}

impl Clone for WasmtimeRuntime {
    /// Another handle to the same engine.
    fn clone(&self) -> (r: Self)
        ensures
            r.spec_engine() == self.spec_engine(),
    {
        WasmtimeRuntime { engine: engine_clone(&self.engine) }
    }
}

/// A compiled module, pre-instantiated against its host functions; clones
/// share it.
#[verifier::reject_recursive_types(T)]
pub struct WasmtimeCompiledModule<T> {
    inner: Arc<WasmtimeCompiledModuleInner<T>>,
}

/// What a compiled module shares between its clones.
#[verifier::reject_recursive_types(T)]
pub struct WasmtimeCompiledModuleInner<T> {
    source: RawWasm,
    module: Module,
    instance_pre: InstancePre<T>,
}

impl<T> WasmtimeCompiledModule<T> {
    /// The wasm the module was compiled from.
    pub closed spec fn spec_source(&self) -> RawWasm {
        self.inner.source
    }

    /// The compiled module.
    pub closed spec fn spec_module(&self) -> Module {
        self.inner.module
    }

    /// The module pre-instantiated against its host functions.
    pub closed spec fn spec_instantiator(&self) -> InstancePre<T> {
        self.inner.instance_pre
    }

    /// Puts the three parts together.
    pub fn new(source: RawWasm, module: Module, instance_pre: InstancePre<T>) -> (r:
        WasmtimeCompiledModule<T>)
        ensures
            r.spec_source() == source,
            r.spec_module() == module,
            r.spec_instantiator() == instance_pre,
    {
        let inner = Arc::new(WasmtimeCompiledModuleInner { source, module, instance_pre });
        WasmtimeCompiledModule { inner }
    }

    /// The exports of the module (name and kind), in the order the module
    /// lists them.
    pub fn exports(&self) -> (r: Vec<ModuleExport>)
        ensures
            r@.map_values(|e: ModuleExport| e@) == module_export_list(self.spec_module()),
    {
        module_exports(&self.inner.module)
    }

    /// The wasm the module was compiled from.
    pub fn source(&self) -> (r: &RawWasm)
        ensures
            *r == self.spec_source(),
    {
        &self.inner.source
    }

    /// The module pre-instantiated against its host functions.
    pub fn instantiator(&self) -> (r: &InstancePre<T>)
        ensures
            *r == self.spec_instantiator(),
    {
        &self.inner.instance_pre
    }
}

impl<T> Clone for WasmtimeCompiledModule<T> {
    /// Another handle to the same compiled module.
    fn clone(&self) -> (r: Self)
        ensures
            r.spec_source() == self.spec_source(),
            r.spec_module() == self.spec_module(),
            r.spec_instantiator() == self.spec_instantiator(),
    {
        WasmtimeCompiledModule { inner: arc_share(&self.inner) }
    }
}

/// An instantiated module with the store it lives in.
#[verifier::reject_recursive_types(T)]
pub struct WasmtimeInstance<T> where T: Send + 'static {
    store: FueledStore<T>,
    instance: Instance,
}

impl<T> WasmtimeInstance<T> where T: Send + 'static {
    /// The store of the instance, with its record.
    pub closed spec fn spec_store(&self) -> FueledStore<T> {
        self.store
    }

    /// The instance.
    pub closed spec fn spec_instance(&self) -> Instance {
        self.instance
    }

    /// An instance that was just created in `store`, whose state is then
    /// marked as initialized; the store's set-up record is kept.
    pub fn from_instantiation(store: FueledStore<T>, instance: Instance) -> (r: WasmtimeInstance<
        T,
    >) where T: ProcessState
        ensures
            r.spec_instance() == instance,
            r.spec_store().data_known(),
            r.spec_store().spec_data().spec_initialized(),
            r.spec_store().spec_engine() == store.spec_engine(),
            r.spec_store().poured_fuel() == store.poured_fuel(),
            r.spec_store().yield_interval() == store.yield_interval(),
            r.spec_store().limited_by_data() == store.limited_by_data(),
    {
        let mut store = store;
        store_data_mut(&mut store).initialize();
        WasmtimeInstance { store, instance }
    }

    /// The instance, to look its exports up in the store.
    pub fn instance(&self) -> (r: &Instance)
        ensures
            *r == self.spec_instance(),
    {
        &self.instance
    }

    /// The store, to look up exports and run a call of one of the
    /// instance's functions in. Guest code may change the state, so it is no
    /// longer known afterwards.
    pub fn store_mut(&mut self) -> (r: &mut Store<T>)
        ensures
            *r == old(self).spec_store().spec_store(),
            final(self).spec_store().spec_store() == *final(r),
            !final(self).spec_store().data_known(),
            final(self).spec_instance() == old(self).spec_instance(),
    {
        self.store.store_mut()
    }

    /// Decides on a call of `function`, given `entry`, what looking the name
    /// up among the instance's exports found: without a function the
    /// process ends with a spawn error naming it, handing back the store's
    /// state; with one, the instance and the function are handed back to run
    /// the call.
    pub fn start_call(self, function: &str, entry: Option<Func>) -> (r: Result<
        (WasmtimeInstance<T>, Func),
        ExecutionResult<T>,
    >)
        ensures
            entry is None ==> (r matches Err(done) && done.result matches ResultValue::SpawnError(
                message,
            ) && message@ == not_found_text(function@)),
            entry is None && self.spec_store().data_known() ==> (r matches Err(done) && done.state
                == self.spec_store().spec_data()),
            entry matches Some(f) ==> (r matches Ok((instance, g)) && g == f && instance == self),
    {
        match entry {
            Some(func) => Ok((self, func)),
            None => Err(self.function_not_found(function)),
        }
    }

    /// Ends the process because it does not export `function`: a spawn
    /// error naming the function, with the store's state.
    pub fn function_not_found(self, function: &str) -> (r: ExecutionResult<T>)
        ensures
            r.result matches ResultValue::SpawnError(message) && message@ == not_found_text(
                function@,
            ),
            self.spec_store().data_known() ==> r.state == self.spec_store().spec_data(),
    {
        let message = not_found_message(function);
        let state = store_into_data(self.store);
        ExecutionResult { state, result: ResultValue::SpawnError(message) }
    }

    /// Ends the process after a call that returned `outcome`, with the
    /// store's state and `call_result(outcome)`.
    pub fn finish_call(self, outcome: Result<(), wasmtime::Error>) -> (r: ExecutionResult<T>)
        ensures
            ends_call(outcome, r.result),
            self.spec_store().data_known() ==> r.state == self.spec_store().spec_data(),
    {
        let result = call_result(outcome);
        let state = store_into_data(self.store);
        ExecutionResult { state, result }
    }
}

} // verus!
