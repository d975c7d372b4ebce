[package]
name = "alfalfa"
version = "0.1.0"
edition = "2021"
publish = false

[dependencies]
chrono = { version = "0.4", default-features = false, features = ["clock", "std"] }
dirs = "6"
serde_json = "1"
tauri = { version = "2", default-features = false }
tauri-plugin-window-state = "2"
tracing = "0.1"
