[package]
name = "slave_recorder"
version = "0.1.0"
edition = "2021"
publish = false

[dependencies]
anyhow = "1"
humansize = "2"
serde = { version = "1", features = ["derive"] }
serde_with = "3"
tokio = { version = "1", features = ["fs", "io-util", "macros", "process", "rt-multi-thread", "signal", "time"] }
toml = "0.8"
tracing = "0.1"
tracing-subscriber = { version = "0.3", features = ["env-filter"] }
