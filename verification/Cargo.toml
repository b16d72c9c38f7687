[package]
name = "vtx_sdk"
version = "0.1.0"
edition = "2021"
publish = false

[dependencies]
serde = { version = "=1.0.229", features = ["derive"] }
serde_json = "=1.0.154"
vtx-protocol = "=3.6.0"
