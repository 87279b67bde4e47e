use ain_dex::dex::{Error, PoolPair, PoolPrice, TokenAmount, COIN};
use ain_dex::registry::Registry;

/// A sandbox module that answers the swap export honestly enough for the
/// marshalling to be observed: it writes a success block that echoes the
/// pool it was given and reports the input amount as the output.
const ECHO_MODULE: &str = r#"
(module
  (memory (export "memory") 1)
  (func (export "swap")
        (param i32 i32 i32 i64 i64 i64 i64 i64 i32 i64 i64 i64 i32)
        (result i32)
    (i32.store (i32.const 0) (i32.const 0))
    (i32.store (i32.const 8) (local.get 0))
    (i32.store (i32.const 16) (local.get 1))
    (i32.store (i32.const 24) (local.get 2))
    (i64.store (i32.const 32) (local.get 3))
    (i64.store (i32.const 40) (local.get 4))
    (i64.store (i32.const 48) (local.get 5))
    (i64.store (i32.const 56) (local.get 6))
    (i64.store (i32.const 64) (local.get 7))
    (i64.store (i32.const 72) (local.get 9))
    (i32.const 0)))
"#;

/// A module whose swap always reports the LackOfLiquidity discriminant.
const ERROR_MODULE: &str = r#"
(module
  (memory (export "memory") 1)
  (func (export "swap")
        (param i32 i32 i32 i64 i64 i64 i64 i64 i32 i64 i64 i64 i32)
        (result i32)
    (i32.store (i32.const 0) (i32.const 1))
    (i32.store (i32.const 8) (i32.const 3))
    (i32.const 0)))
"#;

/// A module whose swap writes an unknown tag: a fatal decode fault.
const BAD_TAG_MODULE: &str = r#"
(module
  (memory (export "memory") 1)
  (func (export "swap")
        (param i32 i32 i32 i64 i64 i64 i64 i64 i32 i64 i64 i64 i32)
        (result i32)
    (i32.store (i32.const 0) (i32.const 7))
    (i32.const 0)))
"#;

/// A module whose swap traps.
const TRAP_MODULE: &str = r#"
(module
  (memory (export "memory") 1)
  (func (export "swap")
        (param i32 i32 i32 i64 i64 i64 i64 i64 i32 i64 i64 i64 i32)
        (result i32)
    unreachable))
"#;

fn sample_pool() -> PoolPair {
    PoolPair {
        token_a: 1,
        token_b: 2,
        commission: 10_000_000,
        reserve_a: 200 * COIN,
        reserve_b: 1000 * COIN,
        total_liquidity: 1000 * COIN,
        block_commission_a: 0,
        block_commission_b: 0,
    }
}

fn sample_call(registry: &mut Registry, id: &String) -> Result<ain_dex::dex::SwapResult, Error> {
    let token_in = TokenAmount { token_id: 2, amount: 10 * COIN };
    let max_price = PoolPrice { integer: 100 * COIN, fraction: 0 };
    registry.invoke(id, sample_pool(), token_in, max_price, true)
}

#[test]
fn test_resolve_unregistered_id() {
    // Registering one module and resolving an unregistered id reports
    // NotFoundError, without a crash.
    let mut registry = Registry::new();
    let dex_id = "dex".to_owned();
    registry.register(&dex_id, ECHO_MODULE.as_bytes()).unwrap();
    assert!(registry.contains(&dex_id));

    let other = "oracle".to_owned();
    assert!(!registry.contains(&other));
    assert_eq!(sample_call(&mut registry, &other).unwrap_err(), Error::NotFoundError);
    // The registered module is still there and still answers.
    assert!(sample_call(&mut registry, &dex_id).is_ok());
}

#[test]
fn test_invoke_on_empty_registry() {
    let mut registry = Registry::new();
    let id = "dex".to_owned();
    assert_eq!(sample_call(&mut registry, &id).unwrap_err(), Error::NotFoundError);
}

#[test]
fn test_invoke_echo_module() {
    let mut registry = Registry::new();
    let id = "dex".to_owned();
    registry.register(&id, ECHO_MODULE.as_bytes()).unwrap();

    let result = sample_call(&mut registry, &id).unwrap();
    // The echo module hands the pool back unchanged and reports the
    // input amount as the output: the full encode/call/read/decode path
    // is exercised against the real engine.
    assert_eq!(result.pool_pair, sample_pool());
    assert_eq!(result.slop_swap_result, 10 * COIN);
}

#[test]
fn test_invoke_error_module() {
    let mut registry = Registry::new();
    let id = "dex".to_owned();
    registry.register(&id, ERROR_MODULE.as_bytes()).unwrap();
    assert_eq!(sample_call(&mut registry, &id).unwrap_err(), Error::LackOfLiquidity);
}

#[test]
fn test_invoke_bad_tag_module() {
    let mut registry = Registry::new();
    let id = "dex".to_owned();
    registry.register(&id, BAD_TAG_MODULE.as_bytes()).unwrap();
    assert_eq!(sample_call(&mut registry, &id).unwrap_err(), Error::RuntimeError);
}

#[test]
fn test_invoke_trapping_module() {
    let mut registry = Registry::new();
    let id = "dex".to_owned();
    registry.register(&id, TRAP_MODULE.as_bytes()).unwrap();
    assert_eq!(sample_call(&mut registry, &id).unwrap_err(), Error::RuntimeError);
}

#[test]
fn test_register_invalid_module() {
    let mut registry = Registry::new();
    let id = "dex".to_owned();
    assert_eq!(
        registry.register(&id, b"not a wasm module").unwrap_err(),
        Error::RuntimeError
    );
    assert!(!registry.contains(&id));
}

#[test]
fn test_register_replaces_entry() {
    let mut registry = Registry::new();
    let id = "dex".to_owned();
    registry.register(&id, ECHO_MODULE.as_bytes()).unwrap();
    assert!(sample_call(&mut registry, &id).is_ok());

    // Registering the same id again replaces instance and store as one
    // unit: the new module answers from then on.
    registry.register(&id, ERROR_MODULE.as_bytes()).unwrap();
    assert_eq!(sample_call(&mut registry, &id).unwrap_err(), Error::LackOfLiquidity);
}

#[test]
fn test_independent_ids() {
    let mut registry = Registry::new();
    let echo_id = "echo".to_owned();
    let fail_id = "fail".to_owned();
    registry.register(&echo_id, ECHO_MODULE.as_bytes()).unwrap();
    registry.register(&fail_id, ERROR_MODULE.as_bytes()).unwrap();
    assert!(sample_call(&mut registry, &echo_id).is_ok());
    assert_eq!(sample_call(&mut registry, &fail_id).unwrap_err(), Error::LackOfLiquidity);
    // Each id keeps its own module.
    assert!(sample_call(&mut registry, &echo_id).is_ok());
}

#[test]
fn test_module_without_swap_export() {
    let mut registry = Registry::new();
    let id = "dex".to_owned();
    let no_swap = r#"(module (memory (export "memory") 1))"#;
    assert_eq!(
        registry.register(&id, no_swap.as_bytes()).unwrap_err(),
        Error::RuntimeError
    );
}
