[package]
name = "wasi_runtime"
version = "0.1.0"
edition = "2021"
publish = false

[dependencies]
anyhow = "1"
clap = { version = "4", features = ["derive"] }
wasmer = { version = "3", default-features = false, features = ["sys", "cranelift"] }
wasmer-vnet = "*"
wasmer-wasi-local-networking = "*"
webc = "5"
