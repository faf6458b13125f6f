[package]
name = "tauri_state"
version = "0.1.0"
edition = "2021"
publish = false

[dependencies]
squirrel-rng = "=0.5.0"
serde = { version = "=1.0.229", features = ["derive"] }
thiserror = "=2.0.21"
