//! The trusted boundary to the sandbox engine (wasmtime).  Every item
//! here either declares a wasmtime type so that verified code can carry
//! it, or wraps exactly one wasmtime call.  Nothing about the sandboxed
//! code itself is assumed: a call may trap, and what it returns is
//! arbitrary; the verified callers state what holds whatever comes back.

use vstd::prelude::*;

verus! {

/// Host-side auxiliary state kept in a sandbox store.  The swap export
/// needs no host imports, so there is nothing in it.
pub struct DexData {}

#[verifier::external_type_specification]
#[verifier::external_body]
pub struct ExConfig(wasmtime::Config);

#[verifier::external_type_specification]
#[verifier::external_body]
pub struct ExEngine(wasmtime::Engine);

#[verifier::external_type_specification]
#[verifier::external_body]
pub struct ExModule(wasmtime::Module);

#[verifier::external_type_specification]
#[verifier::external_body]
#[verifier::reject_recursive_types(T)]
pub struct ExStore<T: 'static>(wasmtime::Store<T>);

#[verifier::external_type_specification]
#[verifier::external_body]
#[verifier::reject_recursive_types(T)]
pub struct ExLinker<T>(wasmtime::Linker<T>);

#[verifier::external_type_specification]
#[verifier::external_body]
pub struct ExInstance(wasmtime::Instance);

#[verifier::external_type_specification]
#[verifier::external_body]
pub struct ExMemory(wasmtime::Memory);

#[verifier::external_type_specification]
#[verifier::external_body]
#[verifier::reject_recursive_types(Params)]
#[verifier::reject_recursive_types(Results)]
pub struct ExTypedFunc<Params, Results>(wasmtime::TypedFunc<Params, Results>);

/// A failed engine call: a compile or instantiation error, a trap, or an
/// out-of-bounds read.  The engine's own error value is dropped at the
/// boundary; callers classify the failure by where it arose.
#[derive(Clone, Copy, PartialEq, Eq, Structural, Debug)]
pub struct SandboxFault;

/// The typed form of the sandbox swap export: the thirteen flat scalars
/// in, one pointer into linear memory out.
pub type SwapFn = wasmtime::TypedFunc<
    (i32, i32, i32, i64, i64, i64, i64, i64, i32, i64, i64, i64, i32),
    (i32,),
>;

/// Relies on wasmtime::Config::new: the default engine configuration.
#[verifier::external_body]
pub(crate) fn config_new() -> wasmtime::Config {
    wasmtime::Config::new()
}

/// Relies on wasmtime::Config::memory_reservation: how much address
/// space is reserved ahead for each linear memory.
#[verifier::external_body]
pub(crate) fn config_memory_reservation(config: &mut wasmtime::Config, bytes: u64) {
    config.memory_reservation(bytes);
}

/// Relies on wasmtime::Config::memory_guard_size: the size of the guard
/// region kept after each linear memory.
#[verifier::external_body]
pub(crate) fn config_memory_guard_size(config: &mut wasmtime::Config, bytes: u64) {
    config.memory_guard_size(bytes);
}

/// Relies on wasmtime::Engine::new: an engine for the configuration, or
/// a failure if the host cannot support it.
#[verifier::external_body]
pub(crate) fn engine_new(config: &wasmtime::Config) -> (r: Result<wasmtime::Engine, SandboxFault>) {
    wasmtime::Engine::new(config).map_err(|_| SandboxFault)
}

/// An engine sized for the swap sandbox: linear memories get a modest
/// up-front reservation and guard region rather than the multi-gigabyte
/// default, so a host with a bounded address space can run many stores.
pub(crate) fn sandbox_engine() -> Result<wasmtime::Engine, SandboxFault> {
    let mut config = config_new();
    config_memory_reservation(&mut config, 1 << 24);
    config_memory_guard_size(&mut config, 1 << 16);
    engine_new(&config)
}

/// Relies on wasmtime::Module::new: validates and compiles a binary (or,
/// with the `wat` feature, textual) module, without running it.
#[verifier::external_body]
pub(crate) fn compile_module(engine: &wasmtime::Engine, bytes: &[u8]) -> (r: Result<
    wasmtime::Module,
    SandboxFault,
>) {
    wasmtime::Module::new(engine, bytes).map_err(|_| SandboxFault)
}

/// Relies on wasmtime::Linker::new: a linker with no definitions, so the
/// instantiated module gets no host imports.
#[verifier::external_body]
pub(crate) fn linker_new(engine: &wasmtime::Engine) -> wasmtime::Linker<DexData> {
    wasmtime::Linker::new(engine)
}

/// Relies on wasmtime::Store::new: a fresh, isolated execution store.
#[verifier::external_body]
pub(crate) fn store_new(engine: &wasmtime::Engine) -> wasmtime::Store<DexData> {
    wasmtime::Store::new(engine, DexData {})
}

/// Relies on wasmtime::Linker::instantiate: instantiates the module in
/// the store, running its start section if it has one.
#[verifier::external_body]
pub(crate) fn instantiate(
    linker: &wasmtime::Linker<DexData>,
    store: &mut wasmtime::Store<DexData>,
    module: &wasmtime::Module,
) -> (r: Result<wasmtime::Instance, SandboxFault>) {
    linker.instantiate(&mut *store, module).map_err(|_| SandboxFault)
}

/// Relies on wasmtime::Instance::get_memory: the exported memory of that
/// name, if the instance has one.
#[verifier::external_body]
pub(crate) fn get_memory(
    instance: &wasmtime::Instance,
    store: &mut wasmtime::Store<DexData>,
    name: &str,
) -> (r: Option<wasmtime::Memory>) {
    instance.get_memory(&mut *store, name)
}

/// Relies on wasmtime::Instance::get_typed_func: the export of that
/// name, if it is a function of exactly the swap signature.
#[verifier::external_body]
pub(crate) fn get_swap_func(
    instance: &wasmtime::Instance,
    store: &mut wasmtime::Store<DexData>,
    name: &str,
) -> (r: Result<SwapFn, SandboxFault>) {
    instance.get_typed_func(&mut *store, name).map_err(|_| SandboxFault)
}

/// Relies on wasmtime::TypedFunc::call: runs the sandboxed function on
/// the given scalars.  The sandbox decides the outcome: the call may
/// trap, and a returned pointer carries no promise about what the
/// module's memory holds there.
#[verifier::external_body]
pub(crate) fn call_swap_func(
    store: &mut wasmtime::Store<DexData>,
    func: &SwapFn,
    args: &crate::abi::SwapArgs,
) -> (r: Result<i32, SandboxFault>) {
    let a = args;
    let flat = (
        a.token_a, a.token_b, a.commission, a.reserve_a, a.reserve_b, a.total_liquidity,
        a.block_commission_a, a.block_commission_b, a.token_id, a.amount, a.integer, a.fraction,
        a.mode,
    );
    match func.call(&mut *store, flat) {
        Ok((ptr,)) => Ok(ptr),
        Err(_) => Err(SandboxFault),
    }
}

/// Relies on wasmtime::Memory::read: fills the buffer from linear memory
/// at the given offset, or fails without reading past the bounds.  On
/// success the returned block has exactly the 80 bytes of a result
/// record.
#[verifier::external_body]
pub(crate) fn read_result_block(
    memory: &wasmtime::Memory,
    store: &wasmtime::Store<DexData>,
    ptr: i32,
) -> (r: Result<Vec<u8>, SandboxFault>)
    ensures
        r matches Ok(b) ==> b@.len() == 80,
{
    let mut buf = vec![0u8; 80];
    memory.read(store, ptr as usize, &mut buf).map(|_| buf).map_err(|_| SandboxFault)
}

} // verus!
