[package]
name = "wasm_embedded_rt"
version = "0.1.0"
edition = "2021"
publish = false

[dependencies]
anyhow = "=1.0.104"
clap = { version = "=4.6.7", features = ["derive"] }
embedded-hal = "=1.0.0"
linux-embedded-hal = "=0.5.0"
log = "=0.4.34"
serde = { version = "=1.0.229", features = ["derive"] }
simplelog = "=0.12.2"
strum = { version = "=0.24.1", features = ["derive"] }
thiserror = "=1.0.69"
tokio = { version = "1", features = ["macros", "rt-multi-thread"] }
toml = "=0.5.11"
wasm-embedded-spec = { version = "=0.4.0", default-features = false, features = ["std", "bind_rs"] }
wasm-embedded-rt-wasmtime = "=0.4.0"
wasmtime = "=3.0.1"
wasmtime-wasi = "=3.0.1"
