//! The calls into wasmtime, wasi-common, wasmtime-wasi and wasmtime-wasi-http
//! that the library makes. Each function here is trusted: its contract is
//! taken as given, and its body makes one outside call and converts its
//! arguments and result. The names below (`pub uninterp spec fn`) stand for
//! what an outside function computes from its arguments; the contracts say
//! only short facts of them that the outside source shows. Allocation
//! failure inside wasmtime is left out of every "succeeds" clause.

use std::sync::Arc;
use vstd::prelude::*;
use wasmtime::component::{
    Component, InstancePre as ComponentInstancePre, Linker as ComponentLinker,
};
use wasmtime::{Engine, ExternType, InstancePre, Linker, Module, Store};

use crate::component::{packages_of, HostSurface, SurfaceLinker};
use crate::runtime::{ExportKind, ModuleExport};
use crate::settings::{
    fresh_record, AllocationStrategy, ConfigRecord, EngineConfig, OptimizationLevel,
};
use wasmtime::Config;
use crate::state::ProcessState;
use crate::store::FueledStore;

verus! {

// ---------------------------------------------------------------------------
// std
// ---------------------------------------------------------------------------
/// `Arc::clone`: std documents that it makes another pointer to the same
/// allocation, so the shared value is the same.
#[verifier::external_body]
pub(crate) fn arc_share<X>(a: &Arc<X>) -> (r: Arc<X>)
    ensures
        *r == **a,
{
    Arc::clone(a)
}

// ---------------------------------------------------------------------------
// wasmtime::Config, through the library's `EngineConfig`
// ---------------------------------------------------------------------------
/// `wasmtime::Config::new`: a configuration with wasmtime's defaults. The
/// source builds it with its compiler configuration present (the compiler
/// is on), and no option set by this library.
#[verifier::external_body]
pub(crate) fn config_new() -> (r: EngineConfig)
    ensures
        r.record() == fresh_record(),
{
    EngineConfig { config: Config::new(), record: Ghost(fresh_record()) }
}

/// `Config::debug_info`: the source stores the flag and nothing else.
#[verifier::external_body]
pub(crate) fn config_debug_info(config: &mut EngineConfig, enable: bool)
    ensures
        final(config).record() == (ConfigRecord { debug_info: Some(enable), ..old(config).record() }),
{
    config.config.debug_info(enable);
}

/// `Config::consume_fuel`: the source stores the flag and nothing else.
#[verifier::external_body]
pub(crate) fn config_consume_fuel(config: &mut EngineConfig, enable: bool)
    ensures
        final(config).record() == (ConfigRecord { consume_fuel: Some(enable), ..old(config).record() }),
{
    config.config.consume_fuel(enable);
}

/// `Config::wasm_reference_types`: the source records the feature request
/// and nothing else.
#[verifier::external_body]
pub(crate) fn config_reference_types(config: &mut EngineConfig, enable: bool)
    ensures
        final(config).record() == (ConfigRecord {
            reference_types: Some(enable),
            ..old(config).record()
        }),
{
    config.config.wasm_reference_types(enable);
}

/// `Config::wasm_bulk_memory`: the source records the feature request and
/// nothing else.
#[verifier::external_body]
pub(crate) fn config_bulk_memory(config: &mut EngineConfig, enable: bool)
    ensures
        final(config).record() == (ConfigRecord { bulk_memory: Some(enable), ..old(config).record() }),
{
    config.config.wasm_bulk_memory(enable);
}

/// `Config::wasm_multi_value`: the source records the feature request and
/// nothing else.
#[verifier::external_body]
pub(crate) fn config_multi_value(config: &mut EngineConfig, enable: bool)
    ensures
        final(config).record() == (ConfigRecord { multi_value: Some(enable), ..old(config).record() }),
{
    config.config.wasm_multi_value(enable);
}

/// `Config::wasm_multi_memory`: the source records the feature request and
/// nothing else.
#[verifier::external_body]
pub(crate) fn config_multi_memory(config: &mut EngineConfig, enable: bool)
    ensures
        final(config).record() == (ConfigRecord { multi_memory: Some(enable), ..old(config).record() }),
{
    config.config.wasm_multi_memory(enable);
}

/// `Config::cranelift_opt_level`: the source stores the level among the
/// compiler's settings. It panics when the compiler was disabled, so the
/// config must be one whose compiler is known to be on.
#[verifier::external_body]
pub(crate) fn config_opt_level(config: &mut EngineConfig, level: OptimizationLevel)
    requires
        old(config).record().compiler_enabled,
    ensures
        final(config).record() == (ConfigRecord { opt_level: Some(level), ..old(config).record() }),
{
    let level = match level {
        OptimizationLevel::Off => wasmtime::OptLevel::None,
        OptimizationLevel::Speed => wasmtime::OptLevel::Speed,
        OptimizationLevel::SpeedAndSize => wasmtime::OptLevel::SpeedAndSize,
    };
    config.config.cranelift_opt_level(level);
}

/// `Config::allocation_strategy`: the source stores the strategy and
/// nothing else.
#[verifier::external_body]
pub(crate) fn config_allocation_strategy(config: &mut EngineConfig, strategy: AllocationStrategy)
    ensures
        final(config).record() == (ConfigRecord { allocation: Some(strategy), ..old(config).record() }),
{
    let strategy = match strategy {
        AllocationStrategy::OnDemand => wasmtime::InstanceAllocationStrategy::OnDemand,
        AllocationStrategy::Pooling => wasmtime::InstanceAllocationStrategy::pooling(),
    };
    config.config.allocation_strategy(strategy);
}

/// `Config::wasm_component_model`: the source records the feature request
/// and nothing else.
#[verifier::external_body]
pub(crate) fn config_component_model(config: &mut EngineConfig, enable: bool)
    ensures
        final(config).record() == (ConfigRecord {
            component_model: Some(enable),
            ..old(config).record()
        }),
{
    config.config.wasm_component_model(enable);
}

/// `Config::memory_may_move`: the source stores the flag and nothing else.
#[verifier::external_body]
pub(crate) fn config_memory_may_move(config: &mut EngineConfig, enable: bool)
    ensures
        final(config).record() == (ConfigRecord {
            memory_may_move: Some(enable),
            ..old(config).record()
        }),
{
    config.config.memory_may_move(enable);
}

// ---------------------------------------------------------------------------
// wasmtime::Engine
// ---------------------------------------------------------------------------
/// Whether code compiled by the engine consumes fuel (its tunables'
/// `consume_fuel`).
pub uninterp spec fn engine_meters_fuel(engine: Engine) -> bool;

/// Whether the engine allocates instances on demand rather than from a pool.
pub uninterp spec fn engine_allocates_on_demand(engine: Engine) -> bool;

/// `wasmtime::Engine::new`: validates the configuration and builds an
/// engine from a copy of it. Whether it succeeds depends on the host machine
/// as well, so no success is stated. An option that the config set
/// explicitly is the engine's: fuel metering as set, and on-demand
/// allocation exactly when that strategy was set.
#[verifier::external_body]
pub(crate) fn engine_new(config: &EngineConfig) -> (r: Result<Engine, wasmtime::Error>)
    ensures
        r matches Ok(e) ==> (config.record().consume_fuel matches Some(b) ==> engine_meters_fuel(e)
            == b),
        r matches Ok(e) ==> (config.record().allocation matches Some(a) ==> engine_allocates_on_demand(
            e,
        ) == (a == AllocationStrategy::OnDemand)),
{
    Engine::new(&config.config)
}

/// `Engine::clone`: an engine is a shared handle (an `Arc` inside), so the
/// clone is the same engine.
#[verifier::external_body]
pub(crate) fn engine_clone(engine: &Engine) -> (r: Engine)
    ensures
        r == *engine,
{
    engine.clone()
}

// ---------------------------------------------------------------------------
// wasmtime::Module, Linker, InstancePre
// ---------------------------------------------------------------------------
/// Whether `bytes` (binary or text) compile to a core module on the engine.
pub uninterp spec fn module_compiles(engine: Engine, bytes: Seq<u8>) -> bool;

/// The engine a compiled module belongs to (the module keeps a clone of it).
pub uninterp spec fn module_engine(module: Module) -> Engine;

/// The export table of a compiled module: each export's name and kind, in
/// the order the module lists them.
pub uninterp spec fn module_export_list(module: Module) -> Seq<(Seq<char>, ExportKind)>;

/// The export table that `bytes` declare, each export's name and kind in
/// order.
pub uninterp spec fn declared_exports(bytes: Seq<u8>) -> Seq<(Seq<char>, ExportKind)>;

/// `wasmtime::Module::new`: compiles a core module from its binary or text
/// form. It succeeds exactly when the bytes compile on the engine; the
/// module belongs to the engine and exports what the bytes declare.
#[verifier::external_body]
pub(crate) fn module_new(engine: &Engine, bytes: &[u8]) -> (r: Result<Module, wasmtime::Error>)
    ensures
        r is Ok <==> module_compiles(*engine, bytes@),
        r matches Ok(m) ==> module_engine(m) == *engine,
        r matches Ok(m) ==> module_export_list(m) == declared_exports(bytes@),
{
    Module::new(engine, bytes)
}

/// `Module::exports`: one item per entry of the module's export table, in
/// order, each turned into its name and kind.
#[verifier::external_body]
pub(crate) fn module_exports(module: &Module) -> (r: Vec<ModuleExport>)
    ensures
        r@.map_values(|e: ModuleExport| e.view()) == module_export_list(*module),
{
    module.exports().map(|e| {
        let kind = match e.ty() {
            ExternType::Func(_) => ExportKind::Func,
            ExternType::Global(_) => ExportKind::Global,
            ExternType::Table(_) => ExportKind::Table,
            ExternType::Memory(_) => ExportKind::Memory,
            ExternType::Tag(_) => ExportKind::Tag,
        };
        ModuleExport { name: e.name().to_string(), kind }
    }).collect()
}

/// `wasmtime::Linker::new`: an empty linker for the engine.
#[verifier::external_body]
pub(crate) fn linker_new<T>(engine: &Engine) -> (r: Linker<T>) {
    Linker::new(engine)
}

/// A linker for core modules, with whether the process state's host
/// functions (`T::register`) have been defined in it. Only
/// `register_host_functions` sets the mark, right after `T::register`
/// succeeded on this linker.
#[verifier::reject_recursive_types(T)]
pub struct HostLinker<T> {
    linker: Linker<T>,
    registered: Ghost<bool>,
}

impl<T> HostLinker<T> {
    /// Whether `T::register` has defined its host functions in the linker.
    pub closed spec fn registered(&self) -> bool {
        self.registered@
    }

    /// An empty linker for the engine, with no host functions yet.
    pub(crate) fn new(engine: &Engine) -> (r: HostLinker<T>)
        ensures
            !r.registered(),
    {
        HostLinker { linker: linker_new::<T>(engine), registered: Ghost(false) }
    }

    /// Defines the host functions of `T` in the linker; on success the
    /// linker is marked as carrying them.
    pub(crate) fn register_host_functions(&mut self) -> (r: Result<(), wasmtime::Error>) where
        T: ProcessState,

        ensures
            r is Ok ==> final(self).registered(),
    {
        match T::register(&mut self.linker) {
            Ok(()) => {
                self.registered = Ghost(true);
                Ok(())
            },
            Err(e) => Err(e),
        }
    }
}

/// `Linker::instantiate_pre`: type-checks the module's imports against the
/// linker's definitions. It is only asked of a linker that carries the
/// process's host functions. The definitions come from the user's
/// `register`, which no name describes; nothing is stated of the outcome.
#[verifier::external_body]
pub(crate) fn linker_instantiate_pre<T: 'static>(
    linker: &HostLinker<T>,
    module: &Module,
) -> (r: Result<InstancePre<T>, wasmtime::Error>)
    requires
        linker.registered(),
{
    linker.linker.instantiate_pre(module)
}

// ---------------------------------------------------------------------------
// wasmtime::component
// ---------------------------------------------------------------------------
/// Whether `bytes` compile to a component on the engine.
pub uninterp spec fn component_compiles(engine: Engine, bytes: Seq<u8>) -> bool;

/// The engine a compiled component belongs to.
pub uninterp spec fn component_engine(component: Component) -> Engine;

/// The packages (such as `wasi:http`) of the component's imports that a
/// linker must define for the component to link: an import whose type asks
/// for nothing (an empty instance, an already defined resource) needs no
/// definition.
pub uninterp spec fn needed_packages(component: Component) -> Set<Seq<char>>;

/// The packages of the imports that the component which `bytes` declare
/// needs defined.
pub uninterp spec fn declared_needed_packages(bytes: Seq<u8>) -> Set<Seq<char>>;

/// Whether the component links against a linker of the engine that defines
/// exactly the given host surfaces.
pub uninterp spec fn links_with(engine: Engine, surfaces: Seq<HostSurface>, component: Component) -> bool;

/// `wasmtime::component::Component::new`: compiles a component. It succeeds
/// exactly when the bytes compile on the engine; the component belongs to
/// the engine and needs the imports the bytes declare.
#[verifier::external_body]
pub(crate) fn component_new(engine: &Engine, bytes: &[u8]) -> (r: Result<
    Component,
    wasmtime::Error,
>)
    ensures
        r is Ok <==> component_compiles(*engine, bytes@),
        r matches Ok(c) ==> component_engine(c) == *engine,
        r matches Ok(c) ==> needed_packages(c) == declared_needed_packages(bytes@),
{
    Component::new(engine, bytes)
}

/// `wasmtime::component::Linker::new`: an empty component linker for the
/// engine; it defines nothing, so its empty surface list is exact.
#[verifier::external_body]
pub(crate) fn component_linker_new<T: 'static>(engine: &Engine) -> (r: SurfaceLinker<T>)
    ensures
        r.spec_engine() == *engine,
        r.surfaces() == Seq::<HostSurface>::empty(),
        r.exact(),
{
    SurfaceLinker {
        linker: ComponentLinker::new(engine),
        engine: Ghost(*engine),
        surfaces: Ghost(Seq::empty()),
        exact: Ghost(true),
    }
}

/// `component::Linker::instantiate_pre`: type-checks the component's
/// imports against the linker's definitions; an import that needs a
/// definition and finds none fails. While the linker's surface list is
/// exact, it succeeds exactly when the component links with those surfaces,
/// and then every needed package is one the surfaces define.
#[verifier::external_body]
pub(crate) fn component_linker_instantiate_pre<T: 'static>(
    linker: &SurfaceLinker<T>,
    component: &Component,
) -> (r: Result<ComponentInstancePre<T>, wasmtime::Error>)
    ensures
        linker.exact() ==> (r is Ok <==> links_with(
            linker.spec_engine(),
            linker.surfaces(),
            *component,
        )),
        linker.exact() && r is Ok ==> needed_packages(*component).subset_of(
            packages_of(linker.surfaces()),
        ),
{
    linker.linker.instantiate_pre(component)
}

/// `wasmtime_wasi::p2::add_to_linker_async`: defines the WASI Preview 2
/// interfaces (async variants: `wasi:io`, `wasi:clocks`, `wasi:random`,
/// `wasi:cli`, `wasi:filesystem`, `wasi:sockets`) in the linker. Defining a
/// name twice is refused, so it succeeds on an exact linker that does not
/// have the surface yet. On success the surface is added; after a failure
/// the linker may hold part of it and its list is no longer exact.
#[verifier::external_body]
pub(crate) fn add_wasi_preview2<T: wasmtime_wasi::WasiView + 'static>(
    linker: &mut SurfaceLinker<T>,
) -> (r: Result<(), wasmtime::Error>)
    ensures
        old(linker).exact() && !old(linker).surfaces().contains(HostSurface::WasiPreview2) ==> r is Ok,
        r is Ok ==> final(linker).surfaces() == old(linker).surfaces().push(
            HostSurface::WasiPreview2,
        ),
        r is Ok ==> final(linker).exact() == old(linker).exact(),
        r is Err ==> !final(linker).exact(),
        final(linker).spec_engine() == old(linker).spec_engine(),
{
    wasmtime_wasi::p2::add_to_linker_async(&mut linker.linker)
}

/// `wasmtime_wasi_http::p2::add_only_http_to_linker_async`: defines only the
/// `wasi:http` interfaces in the linker. It succeeds on an exact linker that
/// does not have the surface yet; on success the surface is added; after a
/// failure the list is no longer exact.
#[verifier::external_body]
pub(crate) fn add_wasi_http<T: wasmtime_wasi_http::p2::WasiHttpView + 'static>(
    linker: &mut SurfaceLinker<T>,
) -> (r: Result<(), wasmtime::Error>)
    ensures
        old(linker).exact() && !old(linker).surfaces().contains(HostSurface::WasiHttp) ==> r is Ok,
        r is Ok ==> final(linker).surfaces() == old(linker).surfaces().push(HostSurface::WasiHttp),
        r is Ok ==> final(linker).exact() == old(linker).exact(),
        r is Err ==> !final(linker).exact(),
        final(linker).spec_engine() == old(linker).spec_engine(),
{
    wasmtime_wasi_http::p2::add_only_http_to_linker_async(&mut linker.linker)
}

// ---------------------------------------------------------------------------
// wasmtime::Store, through the library's `FueledStore`
// ---------------------------------------------------------------------------
/// `wasmtime::Store::new`: a store owning `data`, tied to the engine, with
/// no fuel poured, no yield interval and no limiter. The source panics only
/// when the allocation of the store fails.
#[verifier::external_body]
pub(crate) fn store_new<T: 'static>(engine: &Engine, data: T) -> (r: FueledStore<T>)
    ensures
        r.spec_engine() == *engine,
        r.poured_fuel() is None,
        r.yield_interval() is None,
        !r.limited_by_data(),
        r.spec_data() == data,
        r.data_known(),
{
    FueledStore {
        store: Store::new(engine, data),
        engine: Ghost(*engine),
        fuel: Ghost(None),
        interval: Ghost(None),
        limited: Ghost(false),
        data: Ghost(data),
        data_known: Ghost(true),
    }
}

/// `Store::data_mut`: the data the store owns, to change in place. Once the
/// borrow ends the store owns what was left behind it.
#[verifier::external_body]
pub(crate) fn store_data_mut<T: 'static>(store: &mut FueledStore<T>) -> (r: &mut T)
    ensures
        old(store).data_known() ==> *r == old(store).spec_data(),
        final(store).spec_data() == *final(r),
        final(store).data_known(),
        final(store).spec_engine() == old(store).spec_engine(),
        final(store).poured_fuel() == old(store).poured_fuel(),
        final(store).yield_interval() == old(store).yield_interval(),
        final(store).limited_by_data() == old(store).limited_by_data(),
{
    store.store.data_mut()
}

/// `Store::limiter` with the store's own data as the limiter: from now on
/// resource creation in the store is limited by `T`'s `ResourceLimiter`
/// impl. The closure only hands back the data it is given. The source
/// changes neither fuel nor data.
#[verifier::external_body]
pub(crate) fn store_limit_by_data<T: wasmtime::ResourceLimiter + 'static>(
    store: &mut FueledStore<T>,
)
    ensures
        final(store).limited_by_data(),
        final(store).spec_engine() == old(store).spec_engine(),
        final(store).poured_fuel() == old(store).poured_fuel(),
        final(store).yield_interval() == old(store).yield_interval(),
        final(store).spec_data() == old(store).spec_data(),
        final(store).data_known() == old(store).data_known(),
{
    store.store.limiter(|state| state);
}

/// `Store::set_fuel`: pours `fuel` into the store. It fails, changing
/// nothing, exactly when the engine does not meter fuel.
#[verifier::external_body]
pub(crate) fn store_set_fuel<T: 'static>(store: &mut FueledStore<T>, fuel: u64) -> (r: Result<
    (),
    wasmtime::Error,
>)
    ensures
        r is Ok <==> engine_meters_fuel(old(store).spec_engine()),
        r is Ok ==> final(store).poured_fuel() == Some(fuel),
        r is Err ==> final(store).poured_fuel() == old(store).poured_fuel(),
        final(store).spec_engine() == old(store).spec_engine(),
        final(store).yield_interval() == old(store).yield_interval(),
        final(store).limited_by_data() == old(store).limited_by_data(),
        final(store).spec_data() == old(store).spec_data(),
        final(store).data_known() == old(store).data_known(),
{
    store.store.set_fuel(fuel)
}

/// `Store::fuel_async_yield_interval`: makes async wasm yield every
/// `interval` units of fuel. It fails exactly when the engine does not meter
/// fuel or the interval is `Some(0)`. On success it resets the fuel to the
/// amount the store holds, so the fuel poured stays what it was.
#[verifier::external_body]
pub(crate) fn store_fuel_async_yield_interval<T: 'static>(
    store: &mut FueledStore<T>,
    interval: Option<u64>,
) -> (r: Result<(), wasmtime::Error>)
    ensures
        r is Ok <==> (engine_meters_fuel(old(store).spec_engine()) && interval != Some(0u64)),
        r is Ok ==> final(store).yield_interval() == Some(interval),
        r is Ok ==> final(store).poured_fuel() == old(store).poured_fuel(),
        final(store).spec_engine() == old(store).spec_engine(),
        final(store).limited_by_data() == old(store).limited_by_data(),
        final(store).spec_data() == old(store).spec_data(),
        final(store).data_known() == old(store).data_known(),
{
    store.store.fuel_async_yield_interval(interval)
}

/// `Store::into_data`: consumes the store and hands back its data, which is
/// the known data while the store stayed with the library.
#[verifier::external_body]
pub(crate) fn store_into_data<T: 'static>(store: FueledStore<T>) -> (r: T)
    ensures
        store.data_known() ==> r == store.spec_data(),
{
    store.store.into_data()
}

// ---------------------------------------------------------------------------
// errors of a call
// ---------------------------------------------------------------------------
/// The exit status that `proc_exit` raised, when the error (or the first
/// error in its chain that is one) is an `I32Exit`; a function of the error
/// alone.
pub uninterp spec fn exit_status_of(err: wasmtime::Error) -> Option<i32>;

/// The text that an error displays; a function of the error alone.
pub uninterp spec fn error_text_of(err: wasmtime::Error) -> Seq<char>;

/// `wasmtime::Error::downcast_ref::<wasi_common::I32Exit>`: the exit status
/// when the error (or one in its chain) is an `I32Exit` raised by
/// `proc_exit`.
#[verifier::external_body]
pub(crate) fn exit_status(err: &wasmtime::Error) -> (r: Option<i32>)
    ensures
        r == exit_status_of(*err),
{
    err.downcast_ref::<wasi_common::I32Exit>().map(|exit| exit.0)
}

/// `wasmtime::Error`'s `Display` (through `to_string`): the error's message.
#[verifier::external_body]
pub(crate) fn error_text(err: &wasmtime::Error) -> (r: String)
    ensures
        r@ == error_text_of(*err),
{
    err.to_string()
}

} // verus!
