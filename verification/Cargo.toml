[package]
name = "tempest_type"
version = "0.1.0"
edition = "2021"
publish = false

[dependencies]
anyhow = "*"
arboard = "*"
chrono = "*"
cpal = "*"
dirs = "*"
enigo = "*"
image = { version = "*", default-features = false, features = ["png"] }
notify-rust = { version = "*", default-features = false, features = ["d"] }
ollama-rs = { version = "*", default-features = false }
rdev = "*"
reqwest = { version = "*", default-features = false, features = ["json"] }
rodio = { version = "*", default-features = false, features = ["playback", "wav"] }
serde = { version = "*", features = ["derive"] }
serde_json = "*"
tokio = { version = "*", features = ["rt-multi-thread", "time", "sync"] }
