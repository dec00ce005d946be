use lunatic_process::error::RuntimeError;
use lunatic_process::outcome::{call_result, failure_result, not_found_message, ResultValue};
use lunatic_process::raw_wasm::RawWasm;
use lunatic_process::runtime::WasmtimeRuntime;
use lunatic_process::settings::{
    default_config, default_settings, fuel_budget, AllocationStrategy, EngineConfig, EngineSettings,
    OptimizationLevel, UNIT_OF_COMPUTE_IN_INSTRUCTIONS,
};

#[test]
fn default_settings_are_the_lunatic_engine() {
    let expected = EngineSettings {
        debug_info: false,
        consume_fuel: true,
        reference_types: true,
        bulk_memory: true,
        multi_value: true,
        multi_memory: true,
        opt_level: OptimizationLevel::SpeedAndSize,
        allocation: AllocationStrategy::OnDemand,
        component_model: true,
        memory_may_move: false,
    };
    assert_eq!(default_settings(), expected);
}

#[test]
fn unit_of_compute_is_a_hundred_thousand_instructions() {
    assert_eq!(UNIT_OF_COMPUTE_IN_INSTRUCTIONS, 100_000);
}

#[test]
fn fuel_budget_is_the_limit_or_everything() {
    assert_eq!(fuel_budget(Some(1_000)), 1_000);
    assert_eq!(fuel_budget(Some(0)), 0);
    assert_eq!(fuel_budget(None), u64::MAX);
}

#[test]
fn not_found_message_names_the_function() {
    assert_eq!(not_found_message("main"), "Function 'main' not found");
    assert_eq!(not_found_message(""), "Function '' not found");
}

#[test]
fn exit_status_zero_counts_as_success() {
    assert_eq!(failure_result(Some(0), "ignored".to_string()), ResultValue::Success);
}

#[test]
fn non_zero_exit_status_fails_with_the_message() {
    assert_eq!(
        failure_result(Some(3), "exit 3".to_string()),
        ResultValue::Failed("exit 3".to_string())
    );
}

#[test]
fn trap_without_exit_status_fails_with_the_message() {
    assert_eq!(
        failure_result(None, "unreachable".to_string()),
        ResultValue::Failed("unreachable".to_string())
    );
}

#[test]
fn returned_call_is_success() {
    assert_eq!(call_result(Ok(())), ResultValue::Success);
}

#[test]
fn proc_exit_zero_error_is_success() {
    let err = wasmtime::Error::new(wasi_common::I32Exit(0));
    assert_eq!(call_result(Err(err)), ResultValue::Success);
}

#[test]
fn proc_exit_non_zero_error_fails_with_display_text() {
    let err = wasmtime::Error::new(wasi_common::I32Exit(7));
    assert_eq!(
        call_result(Err(err)),
        ResultValue::Failed("Exited with i32 exit status 7".to_string())
    );
}

#[test]
fn other_error_fails_with_its_message() {
    let err = wasmtime::Error::msg("boom");
    assert_eq!(call_result(Err(err)), ResultValue::Failed("boom".to_string()));
}

#[test]
fn raw_wasm_from_bytes_has_no_id() {
    let raw: RawWasm = vec![1u8, 2, 3].into();
    assert_eq!(raw.id, None);
    assert_eq!(raw.as_slice(), &[1u8, 2, 3][..]);
    let with_id = RawWasm::new(Some(9), vec![4]);
    assert_eq!(with_id.id, Some(9));
    assert_eq!(with_id.as_slice(), &[4u8][..]);
}

#[test]
fn runtime_builds_from_default_config() {
    assert!(WasmtimeRuntime::new(&default_config()).is_ok());
}

#[test]
fn engine_refusing_its_config_is_an_engine_error() {
    // wasmtime refuses a wasm stack larger than the async stack.
    let mut config = default_config().into_config();
    config.async_stack_size(1);
    config.max_wasm_stack(1 << 20);
    match WasmtimeRuntime::new(&EngineConfig::from_config(config)) {
        Err(RuntimeError::Engine(_)) => {}
        Err(other) => panic!("expected an engine error, got {:?}", other),
        Ok(_) => panic!("expected the engine to refuse the config"),
    }
}

#[test]
fn runtime_error_gives_back_its_cause() {
    let err = RuntimeError::Link(wasmtime::Error::msg("unsatisfied"));
    assert_eq!(err.into_cause().to_string(), "unsatisfied");
}
