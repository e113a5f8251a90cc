[package]
name = "echo_core"
version = "0.1.0"
edition = "2021"
publish = false

[dependencies]
anyhow = "1"
cpal = "*"
crossbeam-channel = "*"
dirs = "*"
enigo = "*"
hound = "*"
log = "*"
rubato = "*"
rusqlite = { version = "*", features = ["bundled"] }
serde = { version = "1", features = ["derive"] }
serde_json = "1"
uuid = { version = "*", features = ["v4"] }
voice_activity_detector = "*"
