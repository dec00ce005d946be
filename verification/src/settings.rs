//! The engine settings under which lunatic runs guests, held as plain values,
//! and the `wasmtime::Config` built from them.

use vstd::prelude::*;
use wasmtime::Config;

use crate::wasmtime_calls::{
    config_allocation_strategy, config_bulk_memory, config_component_model, config_consume_fuel,
    config_debug_info, config_memory_may_move, config_multi_memory, config_multi_value,
    config_new, config_opt_level, config_reference_types,
};

verus! {

/// Fuel units that a guest may burn between two yields to the async
/// scheduler: one unit of compute.
pub const UNIT_OF_COMPUTE_IN_INSTRUCTIONS: u64 = 100_000;

/// The fuel a module process's store starts with: its limit, or as much as a
/// store can hold when it has none.
pub open spec fn fuel_budget_of(max_fuel: Option<u64>) -> u64 {
    match max_fuel {
        Some(fuel) => fuel,
        None => u64::MAX,
    }
}

/// Computes `fuel_budget_of(max_fuel)`.
pub fn fuel_budget(max_fuel: Option<u64>) -> (r: u64)
    ensures
        r == fuel_budget_of(max_fuel),
{
    match max_fuel {
        Some(fuel) => fuel,
        None => u64::MAX,
    }
}

/// Cranelift's optimisation level.
#[derive(Clone, Copy, Debug, PartialEq, Eq, Structural)]
pub enum OptimizationLevel {
    Off,
    Speed,
    SpeedAndSize,
}

/// How the engine allocates the resources of an instance.
#[derive(Clone, Copy, Debug, PartialEq, Eq, Structural)]
pub enum AllocationStrategy {
    /// Allocate at instantiation, free when the store is dropped.
    OnDemand,
    /// Reuse slots of a pool allocated in advance (wasmtime's default pool).
    Pooling,
}

/// The engine settings that the library decides, one field per
/// `wasmtime::Config` option it sets.
#[derive(Clone, Copy, Debug, PartialEq, Eq, Structural)]
pub struct EngineSettings {
    pub debug_info: bool,
    pub consume_fuel: bool,
    pub reference_types: bool,
    pub bulk_memory: bool,
    pub multi_value: bool,
    pub multi_memory: bool,
    pub opt_level: OptimizationLevel,
    pub allocation: AllocationStrategy,
    pub component_model: bool,
    pub memory_may_move: bool,
}

/// The settings of every lunatic engine: no DWARF, fuel metering on (the
/// store decides what running out of fuel means), reference types, bulk
/// memory, multi-value and multi-memory on, optimisation for speed and size,
/// on-demand allocation (the number of processes is not known in advance),
/// the component model on (for WASI Preview 2 guests), and linear memories
/// that never move.
pub open spec fn lunatic_settings() -> EngineSettings {
    EngineSettings {
        debug_info: false,
        consume_fuel: true,
        reference_types: true,
        bulk_memory: true,
        multi_value: true,
        multi_memory: true,
        opt_level: OptimizationLevel::SpeedAndSize,
        allocation: AllocationStrategy::OnDemand,
        component_model: true,
        memory_may_move: false,
    }
}

/// The settings of every lunatic engine, as plain values.
pub fn default_settings() -> (r: EngineSettings)
    ensures
        r == lunatic_settings(),
{
    EngineSettings {
        debug_info: false,
        consume_fuel: true,
        reference_types: true,
        bulk_memory: true,
        multi_value: true,
        multi_memory: true,
        opt_level: OptimizationLevel::SpeedAndSize,
        allocation: AllocationStrategy::OnDemand,
        component_model: true,
        memory_may_move: false,
    }
}

/// What this library has set on a `wasmtime::Config`: one entry per option
/// it sets (`None` where it set nothing), and whether the config's compiler
/// is known to be on.
pub struct ConfigRecord {
    pub compiler_enabled: bool,
    pub debug_info: Option<bool>,
    pub consume_fuel: Option<bool>,
    pub reference_types: Option<bool>,
    pub bulk_memory: Option<bool>,
    pub multi_value: Option<bool>,
    pub multi_memory: Option<bool>,
    pub opt_level: Option<OptimizationLevel>,
    pub allocation: Option<AllocationStrategy>,
    pub component_model: Option<bool>,
    pub memory_may_move: Option<bool>,
}

/// The record of a config that `Config::new` just made: compiler on,
/// nothing set.
pub open spec fn fresh_record() -> ConfigRecord {
    ConfigRecord {
        compiler_enabled: true,
        debug_info: None,
        consume_fuel: None,
        reference_types: None,
        bulk_memory: None,
        multi_value: None,
        multi_memory: None,
        opt_level: None,
        allocation: None,
        component_model: None,
        memory_may_move: None,
    }
}

/// The record of a config about which this library knows nothing.
pub open spec fn unknown_record() -> ConfigRecord {
    ConfigRecord { compiler_enabled: false, ..fresh_record() }
}

/// The record of a fresh config on which every option of `settings` was set.
pub open spec fn record_of(settings: EngineSettings) -> ConfigRecord {
    ConfigRecord {
        compiler_enabled: true,
        debug_info: Some(settings.debug_info),
        consume_fuel: Some(settings.consume_fuel),
        reference_types: Some(settings.reference_types),
        bulk_memory: Some(settings.bulk_memory),
        multi_value: Some(settings.multi_value),
        multi_memory: Some(settings.multi_memory),
        opt_level: Some(settings.opt_level),
        allocation: Some(settings.allocation),
        component_model: Some(settings.component_model),
        memory_may_move: Some(settings.memory_may_move),
    }
}

/// A `wasmtime::Config` together with the record of what this library set
/// on it.
pub struct EngineConfig {
    pub(crate) config: Config,
    pub(crate) record: Ghost<ConfigRecord>,
}

impl EngineConfig {
    /// What this library set on the config.
    pub closed spec fn record(&self) -> ConfigRecord {
        self.record@
    }

    /// A config made elsewhere; nothing is known of its options.
    pub fn from_config(config: Config) -> (r: EngineConfig)
        ensures
            r.record() == unknown_record(),
    {
        EngineConfig { config, record: Ghost(unknown_record()) }
    }

    /// The wasmtime config, to read or to pass on.
    pub fn config(&self) -> &Config {
        &self.config
    }

    /// Gives up the record and keeps the wasmtime config.
    pub fn into_config(self) -> Config {
        self.config
    }
}

/// A fresh `wasmtime::Config` with each field of `settings` handed to the
/// option of the same name.
pub fn config_from_settings(settings: &EngineSettings) -> (r: EngineConfig)
    ensures
        r.record() == record_of(*settings),
        r.record().compiler_enabled,
        r.record().debug_info == Some(settings.debug_info),
        r.record().consume_fuel == Some(settings.consume_fuel),
        r.record().reference_types == Some(settings.reference_types),
        r.record().bulk_memory == Some(settings.bulk_memory),
        r.record().multi_value == Some(settings.multi_value),
        r.record().multi_memory == Some(settings.multi_memory),
        r.record().opt_level == Some(settings.opt_level),
        r.record().allocation == Some(settings.allocation),
        r.record().component_model == Some(settings.component_model),
        r.record().memory_may_move == Some(settings.memory_may_move),
{
    let mut config = config_new();
    config_debug_info(&mut config, settings.debug_info);
    config_consume_fuel(&mut config, settings.consume_fuel);
    config_reference_types(&mut config, settings.reference_types);
    config_bulk_memory(&mut config, settings.bulk_memory);
    config_multi_value(&mut config, settings.multi_value);
    config_multi_memory(&mut config, settings.multi_memory);
    config_opt_level(&mut config, settings.opt_level);
    config_allocation_strategy(&mut config, settings.allocation);
    config_component_model(&mut config, settings.component_model);
    config_memory_may_move(&mut config, settings.memory_may_move);
    config
}

/// The config of every lunatic engine: each option of `lunatic_settings()`
/// set on a fresh config.
pub fn default_config() -> (r: EngineConfig)
    ensures
        r.record() == record_of(lunatic_settings()),
        r.record().compiler_enabled,
        r.record().debug_info == Some(false),
        r.record().consume_fuel == Some(true),
        r.record().reference_types == Some(true),
        r.record().bulk_memory == Some(true),
        r.record().multi_value == Some(true),
        r.record().multi_memory == Some(true),
        r.record().opt_level == Some(OptimizationLevel::SpeedAndSize),
        r.record().allocation == Some(AllocationStrategy::OnDemand),
        r.record().component_model == Some(true),
        r.record().memory_may_move == Some(false),
{
    let settings = default_settings();
    config_from_settings(&settings)
}

} // verus!
