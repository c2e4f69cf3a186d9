[package]
name = "pty_sessions"
version = "0.1.0"
edition = "2021"
publish = false

[dependencies]
portable-pty = "0.8"
serde = { version = "1", features = ["derive"] }
tauri = { version = "2", default-features = false }
uuid = { version = "1", features = ["v4"] }
