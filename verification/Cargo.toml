[package]
name = "load_feedback"
version = "0.1.0"
edition = "2021"
publish = false

[dependencies]
curl = "0.4"
log = "0.4"
protobuf = "2"
proxy-wasm = "0.1"
serde_json = "1"
