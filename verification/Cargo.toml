[package]
name = "dump1090-server"
version = "0.1.0"
edition = "2021"
publish = false

[dependencies]
serde_json = "=1.0.154"
http = "=1.5.0"
prost = "=0.14.4"
prost-types = "=0.14.4"
reqwest = { version = "=0.12.28", default-features = false }
tokio = { version = "=1.54.1", features = ["macros", "rt-multi-thread", "fs"] }
tonic = { version = "=0.14.6", features = ["transport", "tls-ring"] }
tonic-prost = "=0.14.6"
tonic-reflection = "=0.14.6"
tonic-web = "=0.14.6"
tonic-web-wasm-client = "=0.9.2"
tower-http = { version = "=0.6.11", features = ["cors"] }
