[package]
name = "ghostbloods"
version = "0.1.0"
edition = "2021"
publish = false

[dependencies]
serde = { version = "1", features = ["derive"] }
serde_json = "1"
tokio = { version = "1", features = ["rt", "time", "process", "net", "macros", "sync"] }
tauri = { version = "2", default-features = false, features = ["tray-icon"] }
