[package]
name = "murmur"
version = "0.1.0"
edition = "2021"
publish = false

[dependencies]
regex-lite = "0.1"
dirs = "6"
nix = { version = "0.29", features = ["signal", "process"] }
serde = { version = "1", features = ["derive"] }
serde_json = "1"
clap = { version = "4", features = ["derive"] }
anyhow = "1"
thiserror = "2"
chrono = "0.4"
dialoguer = "0.11"
hound = "3.5"
rusqlite = { version = "0.33", features = ["bundled"] }
tokio = { version = "1", features = ["full"] }
futures-util = "0.3"
reqwest = { version = "0.12", default-features = false, features = ["json", "multipart", "stream", "rustls-tls"] }
tracing = "0.1"
tracing-subscriber = { version = "0.3", features = ["env-filter"] }
tracing-appender = "0.2"
ctrlc = "3"
cpal = "0.15"
core-foundation = "0.10"
core-graphics = "*"
mac-notification-sys = "0.6"
whisper-rs = "*"
