[package]
name = "set_status"
version = "0.1.0"
edition = "2021"
publish = false

[dependencies]
rig-core = { version = "0.32", default-features = false }
schemars = "1"
serde = { version = "1", features = ["derive"] }
serde_json = "1"
thiserror = "2"
tokio = { version = "1", features = ["sync"] }
uuid = { version = "=1.29.0", features = ["serde", "v4"] }
