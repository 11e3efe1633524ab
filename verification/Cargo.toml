[package]
name = "vow"
version = "0.1.0"
edition = "2021"
publish = false

[dependencies]
serde = { version = "1", features = ["derive"] }
serde_json = "1"
basic-toml = "0.1"
tokio = { version = "1", default-features = false, features = ["fs", "io-util"] }
