[package]
name = "opencode-talk"
version = "0.1.0"
edition = "2021"
publish = false

[dependencies]
dirs = "5"
once_cell = "1"
reqwest = { version = "0.12", default-features = false, features = ["json"] }
rodio = "0.20"
serde = { version = "1", features = ["derive"] }
serde_json = "1"
tiny_http = "0.12"
tokio = { version = "1", features = ["fs", "io-util", "macros", "process", "rt-multi-thread", "sync", "time"] }
