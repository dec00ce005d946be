use std::future::Future;
use std::task::{Context, Poll, Waker};

use lunatic_process::component::WasmtimeComponentInstance;
use lunatic_process::error::RuntimeError;
use lunatic_process::outcome::ResultValue;
use lunatic_process::raw_wasm::RawWasm;
use lunatic_process::runtime::{
    ExportKind, WasmtimeCompiledModule, WasmtimeInstance, WasmtimeRuntime,
};
use lunatic_process::settings::{default_config, EngineConfig};
use lunatic_process::state::ProcessState;
use wasmtime::component::ResourceTable;
use wasmtime_wasi::{WasiCtx, WasiCtxBuilder, WasiCtxView, WasiView};
use wasmtime_wasi_http::p2::{WasiHttpCtxView, WasiHttpView};
use wasmtime_wasi_http::WasiHttpCtx;

/// Drives a future to completion on the current thread.
fn block_on<F: Future>(future: F) -> F::Output {
    let mut future = Box::pin(future);
    let mut cx = Context::from_waker(Waker::noop());
    loop {
        if let Poll::Ready(value) = future.as_mut().poll(&mut cx) {
            return value;
        }
    }
}

struct TestState {
    max_fuel: Option<u64>,
    initialized: bool,
}

impl ProcessState for TestState {
    fn register(linker: &mut wasmtime::Linker<Self>) -> Result<(), wasmtime::Error> {
        linker.func_wrap("lunatic", "noop", || {})?;
        Ok(())
    }

    fn spec_max_fuel(&self) -> Option<u64> {
        self.max_fuel
    }

    fn max_fuel(&self) -> Option<u64> {
        self.max_fuel
    }

    fn spec_initialized(&self) -> bool {
        self.initialized
    }

    fn initialize(&mut self) {
        self.initialized = true;
    }
}

impl wasmtime::ResourceLimiter for TestState {
    fn memory_growing(
        &mut self,
        _current: usize,
        _desired: usize,
        _maximum: Option<usize>,
    ) -> wasmtime::Result<bool> {
        Ok(true)
    }

    fn table_growing(
        &mut self,
        _current: usize,
        _desired: usize,
        _maximum: Option<usize>,
    ) -> wasmtime::Result<bool> {
        Ok(true)
    }
}

const GUEST: &str = r#"
(module
  (import "lunatic" "noop" (func $noop))
  (memory 1)
  (memory 1)
  (func (export "run") call $noop)
  (func (export "crash") unreachable)
  (global (export "counter") i32 (i32.const 0)))
"#;

/// The lunatic engine, with linear memories reserved small enough for the
/// address space that tests run in.
fn runtime() -> WasmtimeRuntime {
    let mut config = default_config().into_config();
    config.memory_reservation(1 << 20);
    config.memory_guard_size(1 << 16);
    WasmtimeRuntime::new(&EngineConfig::from_config(config)).expect("runtime builds")
}

fn compiled_guest(runtime: &WasmtimeRuntime) -> WasmtimeCompiledModule<TestState> {
    runtime
        .compile_module::<TestState>(GUEST.as_bytes().to_vec().into())
        .expect("guest compiles and links")
}

fn instantiate(
    runtime: &WasmtimeRuntime,
    compiled: &WasmtimeCompiledModule<TestState>,
    max_fuel: Option<u64>,
) -> WasmtimeInstance<TestState> {
    let state = TestState { max_fuel, initialized: false };
    let mut store = runtime.new_module_store(state).expect("store gets its fuel");
    let instance = block_on(compiled.instantiator().instantiate_async(store.store_mut()))
        .expect("guest instantiates");
    WasmtimeInstance::from_instantiation(store, instance)
}

fn lookup(instance: &mut WasmtimeInstance<TestState>, name: &str) -> Option<wasmtime::Func> {
    let raw = *instance.instance();
    raw.get_func(instance.store_mut(), name)
}

#[test]
fn compiled_module_keeps_its_source() {
    let runtime = runtime();
    let data = RawWasm::new(Some(42), GUEST.as_bytes().to_vec());
    let compiled = runtime.compile_module::<TestState>(data).expect("guest compiles");
    assert_eq!(compiled.source().id, Some(42));
    assert_eq!(compiled.source().as_slice(), GUEST.as_bytes());
}

#[test]
fn compiled_module_lists_its_exports() {
    let runtime = runtime();
    let compiled = compiled_guest(&runtime);
    let exports = compiled.exports();
    let names: Vec<&str> = exports.iter().map(|e| e.name.as_str()).collect();
    assert_eq!(names, vec!["run", "crash", "counter"]);
    let kinds: Vec<ExportKind> = exports.iter().map(|e| e.kind).collect();
    assert_eq!(kinds, vec![ExportKind::Func, ExportKind::Func, ExportKind::Global]);
}

#[test]
fn clone_of_compiled_module_shares_the_source() {
    let runtime = runtime();
    let compiled = compiled_guest(&runtime);
    let copy = compiled.clone();
    assert_eq!(copy.source().as_slice(), compiled.source().as_slice());
    assert_eq!(copy.exports().len(), 3);
}

#[test]
fn garbage_is_a_compile_error() {
    let runtime = runtime();
    let result = runtime.compile_module::<TestState>(vec![0u8, 1, 2, 3].into());
    assert!(matches!(result, Err(RuntimeError::Compile(_))));
}

#[test]
fn unknown_import_is_a_link_error() {
    let runtime = runtime();
    let wat = r#"(module (import "lunatic" "missing" (func)))"#;
    let result = runtime.compile_module::<TestState>(wat.as_bytes().to_vec().into());
    assert!(matches!(result, Err(RuntimeError::Link(_))));
}

#[test]
fn module_store_starts_with_the_fuel_limit() {
    let runtime = runtime();
    let state = TestState { max_fuel: Some(5_000), initialized: false };
    let store = runtime.new_module_store(state).expect("store gets its fuel");
    assert_eq!(store.store().get_fuel().unwrap(), 5_000);
}

#[test]
fn module_store_without_limit_is_full() {
    let runtime = runtime();
    let state = TestState { max_fuel: None, initialized: false };
    let store = runtime.new_module_store(state).expect("store gets its fuel");
    assert_eq!(store.store().get_fuel().unwrap(), u64::MAX);
}

#[test]
fn store_without_fuel_metering_is_a_fuel_error() {
    let mut config = default_config().into_config();
    config.consume_fuel(false);
    let runtime = WasmtimeRuntime::new(&EngineConfig::from_config(config)).expect("runtime builds");
    let state = TestState { max_fuel: None, initialized: false };
    assert!(matches!(runtime.new_module_store(state), Err(RuntimeError::Fuel(_))));
}

#[test]
fn instantiation_initializes_the_state() {
    let runtime = runtime();
    let compiled = compiled_guest(&runtime);
    let instance = instantiate(&runtime, &compiled, None);
    let result = instance.function_not_found("nothing");
    assert!(result.state.initialized);
}

#[test]
fn calling_an_exported_function_succeeds() {
    let runtime = runtime();
    let compiled = compiled_guest(&runtime);
    let mut instance = instantiate(&runtime, &compiled, Some(1_000_000));
    let entry = lookup(&mut instance, "run");
    let (mut instance, func) = match instance.start_call("run", entry) {
        Ok(pair) => pair,
        Err(_) => panic!("run is exported"),
    };
    let outcome = block_on(func.call_async(instance.store_mut(), &[], &mut []));
    let result = instance.finish_call(outcome);
    assert_eq!(result.result, ResultValue::Success);
    assert!(result.state.initialized);
}

#[test]
fn a_trapping_function_fails() {
    let runtime = runtime();
    let compiled = compiled_guest(&runtime);
    let mut instance = instantiate(&runtime, &compiled, None);
    let func = lookup(&mut instance, "crash").expect("crash is exported");
    let outcome = block_on(func.call_async(instance.store_mut(), &[], &mut []));
    let result = instance.finish_call(outcome);
    assert!(matches!(result.result, ResultValue::Failed(_)));
}

#[test]
fn a_missing_function_is_a_spawn_error() {
    let runtime = runtime();
    let compiled = compiled_guest(&runtime);
    let mut instance = instantiate(&runtime, &compiled, None);
    let entry = lookup(&mut instance, "absent");
    assert!(entry.is_none());
    // A global is exported, but it is no function.
    assert!(lookup(&mut instance, "counter").is_none());
    let result = match instance.start_call("absent", entry) {
        Err(done) => done,
        Ok(_) => panic!("absent is not exported"),
    };
    assert_eq!(
        result.result,
        ResultValue::SpawnError("Function 'absent' not found".to_string())
    );
}

struct ComponentState {
    wasi: WasiCtx,
    http: WasiHttpCtx,
    table: ResourceTable,
    tag: u32,
}

impl ComponentState {
    fn new(tag: u32) -> Self {
        ComponentState {
            wasi: WasiCtxBuilder::new().build(),
            http: WasiHttpCtx::new(),
            table: ResourceTable::new(),
            tag,
        }
    }
}

impl WasiView for ComponentState {
    fn ctx(&mut self) -> WasiCtxView<'_> {
        WasiCtxView { ctx: &mut self.wasi, table: &mut self.table }
    }
}

impl WasiHttpView for ComponentState {
    fn http(&mut self) -> WasiHttpCtxView<'_> {
        WasiHttpCtxView {
            ctx: &mut self.http,
            table: &mut self.table,
            hooks: Default::default(),
        }
    }
}

const EMPTY_COMPONENT: &str = "(component)";
const HTTP_COMPONENT: &str = r#"
(component
  (import "wasi:http/types@0.2.6" (instance
    (export "fields" (type (sub resource))))))
"#;

#[test]
fn component_compiles_and_keeps_its_source() {
    let runtime = runtime();
    let compiled = runtime
        .compile_component::<ComponentState>(EMPTY_COMPONENT.as_bytes().to_vec().into())
        .expect("empty component compiles");
    assert_eq!(compiled.source().as_slice(), EMPTY_COMPONENT.as_bytes());
    let copy = compiled.clone();
    assert_eq!(copy.source().as_slice(), EMPTY_COMPONENT.as_bytes());
    let _component: &wasmtime::component::Component = copy.component();
}

#[test]
fn component_instance_hands_back_its_state() {
    let runtime = runtime();
    let compiled = runtime
        .compile_component::<ComponentState>(EMPTY_COMPONENT.as_bytes().to_vec().into())
        .expect("empty component compiles");
    let mut store = runtime
        .new_component_store(ComponentState::new(17))
        .expect("component store gets its fuel");
    assert_eq!(store.store().get_fuel().unwrap(), u64::MAX);
    let instance = block_on(compiled.instantiator().instantiate_async(store.store_mut()))
        .expect("component instantiates");
    let mut instance = WasmtimeComponentInstance::from_instantiation(store, instance);
    let (store, _raw) = instance.store_and_instance();
    assert_eq!(store.data().tag, 17);
    assert_eq!(instance.into_data().tag, 17);
}

#[test]
fn http_import_is_denied_without_the_http_surface() {
    let runtime = runtime();
    let denied =
        runtime.compile_component::<ComponentState>(HTTP_COMPONENT.as_bytes().to_vec().into());
    assert!(matches!(denied, Err(RuntimeError::Link(_))));
}

#[test]
fn http_import_links_with_the_http_surface() {
    let runtime = runtime();
    let granted = runtime
        .compile_component_with_http::<ComponentState>(HTTP_COMPONENT.as_bytes().to_vec().into());
    assert!(granted.is_ok());
}

#[test]
fn garbage_component_is_a_compile_error() {
    let runtime = runtime();
    let result = runtime.compile_component::<ComponentState>(vec![9u8, 9, 9].into());
    assert!(matches!(result, Err(RuntimeError::Compile(_))));
}
