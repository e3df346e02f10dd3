[package]
name = "script_kit_core"
version = "0.1.0"
edition = "2021"
publish = false

[dependencies]
serde = { version = "*", features = ["derive"] }
serde_json = "*"
shellexpand = "*"
dirs = "*"
thiserror = "*"
anyhow = "*"
