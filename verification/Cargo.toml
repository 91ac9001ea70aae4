[package]
name = "docker_core"
version = "0.1.0"
edition = "2021"
publish = false

[dependencies]
bollard = "=0.18.1"
chrono = "=0.4.45"
futures-util = "=0.3.34"
once_cell = "=1.21.4"
serde = { version = "=1.0.229", features = ["derive"] }
serde_json = "=1.0.154"
tauri = { version = "2", default-features = false }
tauri-plugin-window-state = "2"
tokio = { version = "=1.54.1", features = ["sync", "rt", "macros"] }
