[package]
name = "stack_pool"
version = "0.1.0"
edition = "2021"
publish = false

[dependencies]
anyhow = "=1.0.104"
wasmtime-fiber = "=21.0.2"
