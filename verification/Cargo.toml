[package]
name = "wasm_toolkit"
version = "0.1.0"
edition = "2021"
publish = false

[dependencies]
anyhow = "=1.0.104"
binary-install = "=0.4.1"
which = "=8.0.6"

[dev-dependencies]
tempfile = "=3.27.0"
