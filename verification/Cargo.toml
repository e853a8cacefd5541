[package]
name = "pandoc_wasm_wrapper"
version = "0.1.0"
edition = "2021"
publish = false

[dependencies]
once_cell = "=1.21.4"
tokio = { version = "=1.53.2", features = ["io-util", "sync"] }
wasmer = "=4.3.0-alpha.1"
wasmer-wasix = { version = "=0.18.4", default-features = false, features = ["sys", "logging", "host-fs", "sys-poll", "sys-thread", "host-threads"] }
webc = { version = "=6.0.0-alpha3", default-features = false }
