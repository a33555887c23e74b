[package]
name = "fernspielapparat"
version = "0.1.0"
edition = "2021"
publish = false

[dependencies]
failure = "0.1"
log = "0.4"
serde = { version = "1", features = ["derive"] }
serde_yaml = "0.8"
vlc-rs = "0.3"
