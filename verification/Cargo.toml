[package]
name = "account_pool"
version = "0.1.0"
edition = "2021"
publish = false

[dependencies]
anyhow = "=1.0.104"
chrono = "=0.4.45"
futures = "0.3"
schemars = "=0.8.22"
serde = { version = "=1.0.229", features = ["derive"] }
serde_json = "=1.0.154"
serde_with = "=3.24.0"
sha2 = "=0.10.9"
tokio = { version = "=1.54.1", features = ["rt-multi-thread", "macros", "sync", "time", "fs", "process", "io-util"] }
tokio-util = { version = "=0.7.20", features = ["rt"] }
toml = "=0.9.12"
tracing = "=0.1.44"
uuid = { version = "=1.29.0", features = ["v4", "v7"] }
