[package]
name = "dictation"
version = "0.1.0"
edition = "2021"
publish = false

[dependencies]
sha2 = "*"
serde = { version = "*", features = ["derive"] }
serde_json = "*"
rubato = "*"
cpal = "*"
whisper-rs = "*"
reqwest = { version = "*", default-features = false, features = ["rustls-tls", "stream"] }
tokio = { version = "*", features = ["rt", "macros", "fs", "io-util"] }
futures-util = "*"
