[package]
name = "helix_plugin"
version = "0.1.0"
edition = "2021"
publish = false

[dependencies]
mlua = { version = "0.10", features = ["lua54", "vendored", "serialize"] }
serde = { version = "1", features = ["derive"] }
serde_json = "1"
parking_lot = "0.12"
anyhow = "1"
thiserror = "1"
toml = "0.8"
tokio = { version = "1", default-features = false, features = ["sync"] }
log = "0.4"
