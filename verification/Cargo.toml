[package]
name = "aaxion_discovery"
version = "0.1.0"
edition = "2021"
publish = false

[dependencies]
mdns-sd = "=0.13.11"
serde = { version = "1", features = ["derive"] }
tauri = { version = "2", default-features = false }
