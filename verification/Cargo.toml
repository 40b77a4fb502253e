[package]
name = "hn_api_wasm"
version = "0.1.0"
edition = "2021"
publish = false

[dependencies]
extism-pdk = "1.4"
serde = { version = "1", features = ["derive"] }
serde_yaml = "0.9"
