[package]
name = "wasm_rpc"
version = "0.1.0"
edition = "2021"
publish = false

[dependencies]
anyhow = "*"
arbitrary = { version = "*", features = ["derive"] }
clap = { version = "*", features = ["derive"] }
golem-wasm-ast = "*"
wasm-compose = "*"
