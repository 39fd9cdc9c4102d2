[package]
name = "dashboard_server"
version = "0.1.0"
edition = "2021"
publish = false

[dependencies]
jsonrpc-core = { version = "18", default-features = false }
log = "0.4"
serde_json = "1"
ws = "0.9"
