[package]
name = "ciris_lens_core"
version = "0.3.0"
edition = "2021"
publish = false

[dependencies]
base64 = "0.22"
chrono = "0.4"
ed25519-dalek = "2"
pyo3 = { version = "0.28", features = ["abi3-py310", "extension-module"] }
serde = { version = "1", features = ["derive"] }
serde_json = { version = "1", features = ["raw_value"] }
thiserror = "2"
tokio = { version = "1", features = ["rt", "sync", "macros"] }
tracing = "0.1"
uuid = { version = "1", features = ["v4"] }
