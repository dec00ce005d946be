//! Properties of the library that hold across its functions.

use vstd::prelude::*;

use crate::component::{
    http_surfaces, packages_of, preview2_defines_no_http, preview2_surfaces, HostSurface,
};
use crate::outcome::{ends_call, failure_value, not_found_text, ResultValue};
use crate::settings::{
    fuel_budget_of, lunatic_settings, record_of, AllocationStrategy, EngineSettings,
    OptimizationLevel,
};
use crate::wasmtime_calls::{error_text_of, exit_status_of};

verus! {

/// Of the two surface lists the compile functions link against, the plain
/// one does not contain the `wasi:http` surface and defines no `wasi:http`
/// package, so a component that links against it needs no `wasi:http`
/// import; the granted list is the plain one with `wasi:http` after it.
pub proof fn http_is_wired_only_when_granted(needed: Set<Seq<char>>)
    requires
        needed.subset_of(packages_of(preview2_surfaces())),
    ensures
        !needed.contains("wasi:http"@),
        !packages_of(preview2_surfaces()).contains("wasi:http"@),
        !preview2_surfaces().contains(HostSurface::WasiHttp),
        http_surfaces().contains(HostSurface::WasiHttp),
        http_surfaces() == preview2_surfaces().push(HostSurface::WasiHttp),
{
    preview2_defines_no_http();
    assert(preview2_surfaces()[0] == HostSurface::WasiPreview2);
    assert(http_surfaces()[1] == HostSurface::WasiHttp);
    assert(http_surfaces() =~= preview2_surfaces().push(HostSurface::WasiHttp));
}

/// A failed call counts as a finished one exactly when the guest called
/// `proc_exit(0)`; every other failure is reported with wasmtime's message.
pub proof fn only_a_clean_exit_succeeds(exit: Option<i32>, message: String)
    ensures
        (failure_value(exit, message) is Success) <==> exit == Some(0i32),
        exit != Some(0i32) ==> failure_value(exit, message) == ResultValue::Failed(message),
{
}

/// A call that ran ends in exactly one of `Success` or `Failed`; only a
/// missing function ends in a spawn error.
pub proof fn a_call_that_ran_succeeds_or_fails(outcome: Result<(), wasmtime::Error>, r: ResultValue)
    requires
        ends_call(outcome, r),
    ensures
        r is Success || r is Failed,
        !(r is SpawnError),
        !(r is Killed),
{
}

/// The default engine config meters fuel and allocates instances on demand.
pub proof fn default_config_meters_fuel_on_demand()
    ensures
        record_of(lunatic_settings()).consume_fuel == Some(true),
        record_of(lunatic_settings()).allocation == Some(AllocationStrategy::OnDemand),
        record_of(lunatic_settings()).compiler_enabled,
{
}

/// A call that failed ends in `Success` exactly when the guest exited with
/// status 0 (`proc_exit(0)`); any other exit status, or a trap, ends in
/// `Failed` carrying the error's text. Two failed calls whose errors have
/// the same exit status end alike in kind.
pub proof fn only_exit_status_zero_finishes_cleanly(
    e1: wasmtime::Error,
    r1: ResultValue,
    e2: wasmtime::Error,
    r2: ResultValue,
)
    requires
        ends_call(Err(e1), r1),
        ends_call(Err(e2), r2),
    ensures
        (r1 is Success) <==> exit_status_of(e1) == Some(0i32),
        !(r1 is Success) ==> (r1 matches ResultValue::Failed(m) && m@ == error_text_of(e1)),
        exit_status_of(e1) matches Some(code) && code != 0 ==> r1 is Failed,
        exit_status_of(e1) is None ==> r1 is Failed,
        exit_status_of(e1) == exit_status_of(e2) ==> ((r1 is Success) == (r2 is Success)),
{
}

/// Every option of a config built from settings holds the settings' value,
/// and the config's compiler is on.
pub proof fn config_records_every_setting(settings: EngineSettings)
    ensures
        record_of(settings).compiler_enabled,
        record_of(settings).debug_info == Some(settings.debug_info),
        record_of(settings).consume_fuel == Some(settings.consume_fuel),
        record_of(settings).reference_types == Some(settings.reference_types),
        record_of(settings).bulk_memory == Some(settings.bulk_memory),
        record_of(settings).multi_value == Some(settings.multi_value),
        record_of(settings).multi_memory == Some(settings.multi_memory),
        record_of(settings).opt_level == Some(settings.opt_level),
        record_of(settings).allocation == Some(settings.allocation),
        record_of(settings).component_model == Some(settings.component_model),
        record_of(settings).memory_may_move == Some(settings.memory_may_move),
{
}

/// The default engine config turns on every wasm proposal lunatic guests
/// use (reference types, bulk memory, multi-value, multi-memory, the
/// component model), meters fuel, emits no debug info, optimises for speed
/// and size, allocates on demand and keeps memories in place.
pub proof fn default_config_options()
    ensures
        record_of(lunatic_settings()).reference_types == Some(true),
        record_of(lunatic_settings()).bulk_memory == Some(true),
        record_of(lunatic_settings()).multi_value == Some(true),
        record_of(lunatic_settings()).multi_memory == Some(true),
        record_of(lunatic_settings()).component_model == Some(true),
        record_of(lunatic_settings()).consume_fuel == Some(true),
        record_of(lunatic_settings()).debug_info == Some(false),
        record_of(lunatic_settings()).opt_level == Some(OptimizationLevel::SpeedAndSize),
        record_of(lunatic_settings()).allocation == Some(AllocationStrategy::OnDemand),
        record_of(lunatic_settings()).memory_may_move == Some(false),
{
}

/// A module process never gets more fuel than its limit, and without a
/// limit it gets at least as much as any limit could grant.
pub proof fn fuel_budget_respects_the_limit(max_fuel: Option<u64>, other: u64)
    ensures
        max_fuel matches Some(limit) ==> fuel_budget_of(max_fuel) == limit,
        max_fuel is None ==> fuel_budget_of(max_fuel) >= other,
{
}

/// The spawn error for a missing function names that function, between
/// `Function '` and `' not found`.
pub proof fn not_found_names_the_function(function: Seq<char>)
    ensures
        not_found_text(function).len() == function.len() + 21,
        not_found_text(function).subrange(10, 10 + function.len() as int) == function,
{
    reveal_strlit("Function '");
    reveal_strlit("' not found");
    assert(not_found_text(function).subrange(10, 10 + function.len() as int) =~= function);
}

} // verus!
