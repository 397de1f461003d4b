[package]
name = "sendflare_sdk"
version = "0.1.0"
edition = "2021"
publish = false

[dependencies]
reqwest = "=0.12.28"
serde_json = { version = "=1.0.154", features = ["preserve_order"] }
