[package]
name = "hft_risk_api"
version = "0.1.0"
edition = "2021"
publish = false

[dependencies]
bytes = "*"
chrono = "*"
dashmap = "*"
http-body-util = "*"
hyper = { version = "*", features = ["http1", "server"] }
hyper-util = { version = "*", features = ["tokio"] }
num_cpus = "*"
redis = { version = "*", features = ["tokio-comp"] }
rmp-serde = "*"
serde = { version = "*", features = ["derive"] }
serde_json = "*"
tokio = { version = "*", features = ["rt-multi-thread", "net", "macros", "sync", "time"] }
tracing = "*"
tracing-subscriber = "*"
