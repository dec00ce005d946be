//! The WASI Preview 2 path: components linked against the Preview 2 host
//! surface, optionally with outbound `wasi:http`, and their instances.
//! The classic module path in `runtime` is untouched by it.

use std::sync::Arc;
use vstd::prelude::*;
use wasmtime::component::{
    Component, Instance as ComponentInstance, InstancePre as ComponentInstancePre,
    Linker as ComponentLinker,
};
use wasmtime::{Engine, Store};
use wasmtime_wasi::WasiView;
use wasmtime_wasi_http::p2::WasiHttpView;

use crate::error::RuntimeError;
use crate::raw_wasm::RawWasm;
use crate::runtime::WasmtimeRuntime;
use crate::settings::UNIT_OF_COMPUTE_IN_INSTRUCTIONS;
use crate::store::FueledStore;
use crate::wasmtime_calls::{
    add_wasi_http, add_wasi_preview2, arc_share, component_compiles, component_engine,
    component_linker_instantiate_pre, component_linker_new, component_new,
    declared_needed_packages, engine_meters_fuel, links_with, needed_packages,
    store_fuel_async_yield_interval, store_into_data, store_new, store_set_fuel,
};

verus! {

/// A group of host interfaces that a component linker can define.
#[derive(Clone, Copy, Debug, PartialEq, Eq, Structural)]
pub enum HostSurface {
    /// The WASI Preview 2 interfaces (`wasi:io`, `wasi:clocks`,
    /// `wasi:filesystem`, `wasi:sockets`, `wasi:cli`, ...).
    WasiPreview2,
    /// The outbound `wasi:http` interfaces.
    WasiHttp,
}

/// The surfaces wired for a process without outbound HTTP: Preview 2 alone.
pub open spec fn preview2_surfaces() -> Seq<HostSurface> {
    seq![HostSurface::WasiPreview2]
}

/// The surfaces wired for a process granted outbound HTTP: Preview 2 first
/// (it provides the `wasi:io` and clocks that `wasi:http` builds on), then
/// `wasi:http`.
pub open spec fn http_surfaces() -> Seq<HostSurface> {
    seq![HostSurface::WasiPreview2, HostSurface::WasiHttp]
}

/// The interface packages that a surface defines in a linker.
pub open spec fn surface_packages(surface: HostSurface) -> Set<Seq<char>> {
    match surface {
        HostSurface::WasiPreview2 => set![
            "wasi:io"@,
            "wasi:clocks"@,
            "wasi:random"@,
            "wasi:cli"@,
            "wasi:filesystem"@,
            "wasi:sockets"@,
        ],
        HostSurface::WasiHttp => set!["wasi:http"@],
    }
}

/// The interface packages that a list of surfaces defines.
pub open spec fn packages_of(surfaces: Seq<HostSurface>) -> Set<Seq<char>> {
    Set::new(
        |p: Seq<char>|
            exists|i: int| 0 <= i < surfaces.len() && #[trigger] surface_packages(surfaces[i]).contains(p),
    )
}

/// The plain Preview 2 surface does not define `wasi:http`.
pub proof fn preview2_defines_no_http()
    ensures
        !packages_of(preview2_surfaces()).contains("wasi:http"@),
{
    reveal_strlit("wasi:http");
    reveal_strlit("wasi:io");
    reveal_strlit("wasi:clocks");
    reveal_strlit("wasi:random");
    reveal_strlit("wasi:cli");
    reveal_strlit("wasi:filesystem");
    reveal_strlit("wasi:sockets");
    let http = "wasi:http"@;
    assert(http[5] == 'h');
    assert("wasi:io"@[5] == 'i');
    assert("wasi:clocks"@[5] == 'c');
    assert("wasi:random"@[5] == 'r');
    assert("wasi:cli"@[5] == 'c');
    assert("wasi:filesystem"@[5] == 'f');
    assert("wasi:sockets"@[5] == 's');
    assert(!surface_packages(HostSurface::WasiPreview2).contains(http));
    if packages_of(preview2_surfaces()).contains(http) {
        let i = choose|i: int|
            0 <= i < preview2_surfaces().len() && #[trigger] surface_packages(
                preview2_surfaces()[i],
            ).contains(http);
        assert(preview2_surfaces()[i] == HostSurface::WasiPreview2);
    }
}

/// A component linker with the host surfaces added to it, in order, by the
/// calls that define a surface. While `exact()` the linker defines exactly
/// the interfaces of those surfaces; a failed add leaves it inexact.
#[verifier::reject_recursive_types(T)]
pub struct SurfaceLinker<T: 'static> {
    pub(crate) linker: ComponentLinker<T>,
    pub(crate) engine: Ghost<Engine>,
    pub(crate) surfaces: Ghost<Seq<HostSurface>>,
    pub(crate) exact: Ghost<bool>,
}

impl<T: 'static> SurfaceLinker<T> {
    /// The host surfaces added to the linker, in the order they were added.
    pub closed spec fn surfaces(&self) -> Seq<HostSurface> {
        self.surfaces@
    }

    /// The engine the linker belongs to.
    pub closed spec fn spec_engine(&self) -> Engine {
        self.engine@
    }

    /// Whether the linker defines exactly the interfaces of `surfaces()`.
    pub closed spec fn exact(&self) -> bool {
        self.exact@
    }
}

impl WasmtimeRuntime {
    /// Compiles a WASI Preview 2 component and pre-instantiates it against a
    /// component linker carrying the Preview 2 host surface, and nothing
    /// else: a component that needs a `wasi:http` import cannot be linked
    /// here. It fails with `Compile` exactly when the bytes do not compile;
    /// otherwise it fails only with `Link`, when the component does not link
    /// with Preview 2.
    pub fn compile_component<T: WasiView + 'static>(&self, data: RawWasm) -> (r: Result<
        WasmtimeCompiledComponent<T>,
        RuntimeError,
    >)
        ensures
            r matches Ok(c) ==> {
                &&& c.spec_source() == data
                &&& c.surfaces() == preview2_surfaces()
                &&& component_engine(c.spec_component()) == self.spec_engine()
                &&& needed_packages(c.spec_component()) == declared_needed_packages(data@)
                &&& links_with(self.spec_engine(), preview2_surfaces(), c.spec_component())
                &&& !needed_packages(c.spec_component()).contains("wasi:http"@)
            },
            r matches Err(e) ==> (e is Compile || e is Link),
            r matches Err(e) ==> (e is Compile <==> !component_compiles(self.spec_engine(), data@)),
            r matches Err(e) ==> (e is Link ==> exists|c: Component|
                component_engine(c) == self.spec_engine() && needed_packages(c)
                    == declared_needed_packages(data@) && !#[trigger] links_with(
                    self.spec_engine(),
                    preview2_surfaces(),
                    c,
                )),
    {
        let component = match component_new(self.engine_ref(), data.as_slice()) {
            Ok(component) => component,
            Err(e) => return Err(RuntimeError::Compile(e)),
        };
        let mut linker = component_linker_new::<T>(self.engine_ref());
        match add_wasi_preview2(&mut linker) {
            Ok(()) => {},
            Err(e) => return Err(RuntimeError::HostFunctions(e)),
        }
        assert(linker.surfaces() =~= preview2_surfaces());
        let instance_pre = match component_linker_instantiate_pre(&linker, &component) {
            Ok(instance_pre) => instance_pre,
            Err(e) => {
                assert(!links_with(self.spec_engine(), linker.surfaces(), component));
                return Err(RuntimeError::Link(e));
            },
        };
        proof {
            preview2_defines_no_http();
        }
        Ok(WasmtimeCompiledComponent::new(data, component, instance_pre, Ghost(linker.surfaces())))
    }

    /// Compiles a component against the Preview 2 surface plus outbound
    /// `wasi:http`, for processes whose configuration grants outbound HTTP.
    /// It fails with `Compile` exactly when the bytes do not compile;
    /// otherwise it fails only with `Link`.
    pub fn compile_component_with_http<T: WasiView + WasiHttpView + 'static>(
        &self,
        data: RawWasm,
    ) -> (r: Result<WasmtimeCompiledComponent<T>, RuntimeError>)
        ensures
            r matches Ok(c) ==> {
                &&& c.spec_source() == data
                &&& c.surfaces() == http_surfaces()
                &&& component_engine(c.spec_component()) == self.spec_engine()
                &&& needed_packages(c.spec_component()) == declared_needed_packages(data@)
                &&& links_with(self.spec_engine(), http_surfaces(), c.spec_component())
            },
            r matches Err(e) ==> (e is Compile || e is Link),
            r matches Err(e) ==> (e is Compile <==> !component_compiles(self.spec_engine(), data@)),
            r matches Err(e) ==> (e is Link ==> exists|c: Component|
                component_engine(c) == self.spec_engine() && needed_packages(c)
                    == declared_needed_packages(data@) && !#[trigger] links_with(
                    self.spec_engine(),
                    http_surfaces(),
                    c,
                )),
    {
        let component = match component_new(self.engine_ref(), data.as_slice()) {
            Ok(component) => component,
            Err(e) => return Err(RuntimeError::Compile(e)),
        };
        let mut linker = component_linker_new::<T>(self.engine_ref());
        match add_wasi_preview2(&mut linker) {
            Ok(()) => {},
            Err(e) => return Err(RuntimeError::HostFunctions(e)),
        }
        assert(linker.surfaces() =~= preview2_surfaces());
        match add_wasi_http(&mut linker) {
            Ok(()) => {},
            Err(e) => return Err(RuntimeError::HostFunctions(e)),
        }
        assert(linker.surfaces() =~= http_surfaces());
        let instance_pre = match component_linker_instantiate_pre(&linker, &component) {
            Ok(instance_pre) => instance_pre,
            Err(e) => {
                assert(!links_with(self.spec_engine(), linker.surfaces(), component));
                return Err(RuntimeError::Link(e));
            },
        };
        Ok(WasmtimeCompiledComponent::new(data, component, instance_pre, Ghost(linker.surfaces())))
    }

    /// A fresh store for a component process: a full tank of fuel (the
    /// engine meters fuel), and a yield to the async scheduler every unit of
    /// compute so the guest cannot starve it. A failure can only be the
    /// fuel's.
    pub fn new_component_store<T: WasiView + 'static>(&self, state: T) -> (r: Result<
        FueledStore<T>,
        RuntimeError,
    >)
        ensures
            r is Ok <==> engine_meters_fuel(self.spec_engine()),
            r matches Ok(s) ==> {
                &&& s.spec_engine() == self.spec_engine()
                &&& s.poured_fuel() == Some(u64::MAX)
                &&& s.yield_interval() == Some(Some(UNIT_OF_COMPUTE_IN_INSTRUCTIONS))
                &&& s.data_known()
                &&& s.spec_data() == state
            },
            r matches Err(e) ==> e is Fuel,
    {
        let mut store = store_new(self.engine_ref(), state);
        match store_set_fuel(&mut store, u64::MAX) {
            Ok(()) => {},
            Err(e) => return Err(RuntimeError::Fuel(e)),
        }
        match store_fuel_async_yield_interval(&mut store, Some(UNIT_OF_COMPUTE_IN_INSTRUCTIONS)) {
            Ok(()) => {},
            Err(e) => return Err(RuntimeError::Fuel(e)),
        }
        Ok(store)
    }
}

/// A compiled component, pre-instantiated against its host surfaces; clones
/// share it.
#[verifier::reject_recursive_types(T)]
pub struct WasmtimeCompiledComponent<T: 'static> {
    inner: Arc<WasmtimeCompiledComponentInner<T>>,
}

#[verifier::reject_recursive_types(T)]
struct WasmtimeCompiledComponentInner<T: 'static> {
    source: RawWasm,
    component: Component,
    instance_pre: ComponentInstancePre<T>,
    surfaces: Ghost<Seq<HostSurface>>,
}

impl<T: 'static> WasmtimeCompiledComponent<T> {
    /// The wasm the component was compiled from.
    pub closed spec fn spec_source(&self) -> RawWasm {
        self.inner.source
    }

    /// The compiled component.
    pub closed spec fn spec_component(&self) -> Component {
        self.inner.component
    }

    /// The component pre-instantiated against its host surfaces.
    pub closed spec fn spec_instantiator(&self) -> ComponentInstancePre<T> {
        self.inner.instance_pre
    }

    /// The host surfaces defined in the linker the component was
    /// pre-instantiated against, in the order they were added.
    pub closed spec fn surfaces(&self) -> Seq<HostSurface> {
        self.inner.surfaces@
    }

    fn new(
        source: RawWasm,
        component: Component,
        instance_pre: ComponentInstancePre<T>,
        surfaces: Ghost<Seq<HostSurface>>,
    ) -> (r: WasmtimeCompiledComponent<T>)
        ensures
            r.spec_source() == source,
            r.spec_component() == component,
            r.spec_instantiator() == instance_pre,
            r.surfaces() == surfaces@,
    {
        let inner = Arc::new(
            WasmtimeCompiledComponentInner { source, component, instance_pre, surfaces },
        );
        WasmtimeCompiledComponent { inner }
    }

    /// The wasm the component was compiled from.
    pub fn source(&self) -> (r: &RawWasm)
        ensures
            *r == self.spec_source(),
    {
        &self.inner.source
    }

    /// The compiled component.
    pub fn component(&self) -> (r: &Component)
        ensures
            *r == self.spec_component(),
    {
        &self.inner.component
    }

    /// The component pre-instantiated against its host surfaces.
    pub fn instantiator(&self) -> (r: &ComponentInstancePre<T>)
        ensures
            *r == self.spec_instantiator(),
    {
        &self.inner.instance_pre
    }
}

impl<T: 'static> Clone for WasmtimeCompiledComponent<T> {
    /// Another handle to the same compiled component.
    fn clone(&self) -> (r: Self)
        ensures
            r.spec_source() == self.spec_source(),
            r.spec_component() == self.spec_component(),
            r.spec_instantiator() == self.spec_instantiator(),
            r.surfaces() == self.surfaces(),
    {
        WasmtimeCompiledComponent { inner: arc_share(&self.inner) }
    }
}

/// An instantiated component with the store it lives in.
#[verifier::reject_recursive_types(T)]
pub struct WasmtimeComponentInstance<T> where T: Send + 'static {
    store: FueledStore<T>,
    instance: ComponentInstance,
}

impl<T> WasmtimeComponentInstance<T> where T: Send + 'static {
    /// The store of the instance, with its record.
    pub closed spec fn spec_store(&self) -> FueledStore<T> {
        self.store
    }

    /// The instance.
    pub closed spec fn spec_instance(&self) -> ComponentInstance {
        self.instance
    }

    /// A component instance that was just created in `store`.
    pub fn from_instantiation(store: FueledStore<T>, instance: ComponentInstance) -> (r:
        WasmtimeComponentInstance<T>)
        ensures
            r.spec_store() == store,
            r.spec_instance() == instance,
    {
        WasmtimeComponentInstance { store, instance }
    }

    /// The store and the instance, e.g. to look up and call a typed export.
    /// Guest code may change the state, so it is no longer known afterwards.
    pub fn store_and_instance(&mut self) -> (r: (&mut Store<T>, &ComponentInstance))
        ensures
            *r.0 == old(self).spec_store().spec_store(),
            *r.1 == old(self).spec_instance(),
            final(self).spec_store().spec_store() == *final(r.0),
            !final(self).spec_store().data_known(),
            final(self).spec_instance() == old(self).spec_instance(),
    {
        (self.store.store_mut(), &self.instance)
    }

    /// Consumes the instance and returns the state its store owned: the
    /// known state while the store stayed with the library.
    pub fn into_data(self) -> (r: T)
        ensures
            self.spec_store().data_known() ==> r == self.spec_store().spec_data(),
    {
        store_into_data(self.store)
    }
}

} // verus!
