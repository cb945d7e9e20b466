[package]
name = "wiab_app"
version = "0.1.0"
edition = "2021"
publish = false

[dependencies]
anyhow = "1"
base64 = "0.22"
serde = { version = "1", features = ["derive"] }
serde_json = "1"
thiserror = "2"
tokio = { version = "1", features = ["time", "sync", "macros", "rt"] }
tracing = "0.1"
uuid = { version = "1", features = ["v4"] }
