//! Verified core of a sandboxed AMM swap host.
//!
//! The crate proves the deterministic swap and slippage arithmetic of a
//! two-asset constant-product pool, the flat ABI encoding used to carry
//! arguments and results across a sandbox boundary, and the module registry
//! that maps stable identifiers to loaded sandbox instances.  The sandbox
//! engine itself (wasmtime) is reached only through a small set of trusted
//! wrappers; everything around those calls is verified.

pub mod abi;
pub mod coin;
pub mod dex;
pub mod ffi;
pub mod registry;
pub mod sandbox;
