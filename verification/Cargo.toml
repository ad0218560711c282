[package]
name = "proxy_wasm_harness"
version = "0.1.0"
edition = "2021"
publish = false

[dependencies]
anyhow = "=1.0.104"
wasmtime = "=48.0.5"
