[package]
name = "mac_control"
version = "0.1.0"
edition = "2021"
publish = false

[dependencies]
anyhow = "1"
lazy_static = "=1.5.1"
log = "0.4"
serde = { version = "=1.0.229", features = ["derive"] }
serde_derive = "=1.0.229"
tokio = { version = "=1.54.1", default-features = false, features = ["sync"] }
