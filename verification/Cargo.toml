[package]
name = "kvserver"
version = "0.1.0"
edition = "2021"
publish = false

[dependencies]
dashmap = "*"
rocksdb = "*"
bytes = "*"
prost = "*"
tokio = { version = "*", features = ["full"] }
tokio-util = { version = "*", features = ["codec"] }
futures = "*"
serde = { version = "*", features = ["derive"] }
toml = "*"
clap = { version = "*", features = ["derive"] }
tracing = "*"
tracing-subscriber = { version = "*", features = ["env-filter"] }
