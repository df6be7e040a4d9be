[package]
name = "canister_sandbox"
version = "0.1.0"
edition = "2021"
rust-version = "1.95"
publish = false

[dependencies]
async-trait = "=0.1.92"
openssl = "=0.10.81"
prometheus = "=0.14.0"
rand = "=0.8.8"
serde = { version = "=1.0.229", features = ["derive"] }
tokio = { version = "=1.54.1", features = ["net", "io-util"] }
tokio-openssl = "=0.6.5"
wasmtime = { version = "=45.0.3", default-features = false, features = ["runtime", "std"] }
