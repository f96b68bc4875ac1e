//! The engine guests run on: Pulley bytecode, fuel metering, exceptions.
use vstd::prelude::*;
use wasmtime::Engine;

use crate::runtime::RuntimeError;
use crate::wasm::{
    config_consume_fuel, config_cranelift_opt_level, config_meters_fuel, config_new,
    config_target, config_wasm_exceptions, engine_exceptions, engine_meters_fuel, engine_new,
    engine_opt_level, engine_target_name, error_message, target_supported, OptimizationLevel,
};

verus! {

/// An engine that compiles guests to Pulley bytecode (`pulley64`) with fuel
/// metering, the exception-handling proposal and Cranelift's speed
/// optimizations.
pub fn build_engine() -> (r: Result<Engine, RuntimeError>)
    ensures
        r matches Ok(engine) ==> {
            &&& engine_meters_fuel(engine)
            &&& engine_target_name(engine) == Some("pulley64"@)
            &&& engine_exceptions(engine)
            &&& engine_opt_level(engine) == Some(OptimizationLevel::Speed)
        },
        !target_supported("pulley64"@) ==> r is Err,
        r matches Err(e) ==> e is Wasm,
{
    let mut config = config_new();
    if let Err(e) = config_target(&mut config, "pulley64") {
        return Err(RuntimeError::Wasm(error_message(&e)));
    }
    config_consume_fuel(&mut config, true);
    config_wasm_exceptions(&mut config, true);
    config_cranelift_opt_level(&mut config, OptimizationLevel::Speed);
    match engine_new(&config) {
        Ok(engine) => Ok(engine),
        Err(e) => Err(RuntimeError::Wasm(error_message(&e))),
    }
}

} // verus!
