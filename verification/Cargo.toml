[package]
name = "lunatic_process"
version = "0.1.0"
edition = "2021"
publish = false

[dependencies]
anyhow = "1"
wasmtime = "45"
wasi-common = "45"
wasmtime-wasi = "45"
wasmtime-wasi-http = "45"
