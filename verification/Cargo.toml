[package]
name = "clawrs-feishu"
version = "0.1.0"
edition = "2021"
publish = false

[dependencies]
aes = "=0.8.4"
anyhow = "=1.0.104"
async-trait = "=0.1.92"
axum = "=0.7.9"
base64 = "=0.22.1"
bytes = "=1.12.1"
cbc = "=0.1.2"
napi = { version = "=2.16.17", default-features = false, features = ["napi4", "tokio_rt"] }
napi-derive = "=2.16.13"
open-lark = { version = "=0.14.0", features = ["websocket"] }
serde = { version = "=1.0.229", features = ["derive"] }
serde_json = "=1.0.154"
thiserror = "=1.0.69"
tokio = { version = "=1.54.1", features = ["full"] }
tracing = "=0.1.44"
