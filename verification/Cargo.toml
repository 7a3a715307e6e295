[package]
name = "cardwire-daemon"
version = "0.1.0"
edition = "2021"
publish = false

[dependencies]
anyhow = "1"
log = "0.4"
serde = { version = "1", features = ["derive"] }
tokio = { version = "1", features = ["fs", "io-util", "sync", "rt", "macros"] }
toml = "0.8"
zbus = { version = "5", default-features = false, features = ["tokio"] }
