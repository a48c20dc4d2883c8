[package]
name = "prm"
version = "0.1.0"
edition = "2021"
publish = false

[dependencies]
chrono = "*"
hound = "*"
rusqlite = { version = "*", features = ["bundled"] }
serde = { version = "*", features = ["derive"] }
serde_json = "*"
thiserror = "*"
ureq = "*"
uuid = { version = "*", features = ["v4"] }
whisper-rs = "*"
