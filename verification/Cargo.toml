[package]
name = "gestor_comercial"
version = "0.1.0"
edition = "2021"
publish = false

[dependencies]
chrono = "0.4.45"
hex = "0.4.3"
sha2 = "0.11.1"
rusqlite = { version = "0.41.1", features = ["bundled", "backup"] }
serde = { version = "1.0.229", features = ["derive"] }
serde_json = "1.0.154"
tauri = { version = "2.12.5", default-features = false }
tauri-plugin-fs = { version = "2.7.1", default-features = false }
