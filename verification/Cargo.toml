[package]
name = "ruchei-ffi"
version = "0.1.0"
edition = "2021"
publish = false

[dependencies]
abi_stable = "0.11"
async-ffi = { version = "0.5", features = ["abi_stable"] }
bumpalo = { version = "3", features = ["collections"] }
dashmap = "6"
futures-core = "0.3"
futures-sink = "0.3"
ruchei-route = "*"
tracing-core = "0.1"
