[package]
name = "disk_state_cache"
version = "0.1.0"
edition = "2021"
publish = false

[dependencies]
rmp-serde = "*"
lz4_flex = "*"
tokio = { version = "*", features = ["rt", "fs", "io-util"] }
