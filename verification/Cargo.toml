[package]
name = "ain_dex"
version = "0.1.0"
edition = "2021"
publish = false

[dependencies]
wasmtime = "=45.0.3"

[dev-dependencies]
hex = "=0.4.3"
