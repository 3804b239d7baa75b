[package]
name = "tauri_cli"
version = "0.1.0"
edition = "2021"
publish = false

[dependencies]
base64 = "*"
serde = { version = "1", features = ["derive"] }
serde_json = "1"
clap = "*"

[dev-dependencies]
json-patch = "*"
