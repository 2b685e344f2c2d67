[package]
name = "onyx_desktop"
version = "0.1.0"
edition = "2021"
publish = false

[dependencies]
directories = "=6.0.0"
serde = { version = "1", features = ["derive"] }
serde_json = "1"
tauri = { version = "2", default-features = false }
tokio = { version = "1", features = ["rt", "time"] }
url = "=2.5.8"
uuid = { version = "=1.29.0", features = ["v4"] }
