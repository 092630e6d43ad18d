[package]
name = "imap_codec"
version = "0.1.0"
edition = "2021"
publish = false

[dependencies]
base64 = "0.21"
bytes = "1"
subtle = "2"
chrono = "0.4"
tokio-util = { version = "0.7", features = ["codec"] }
