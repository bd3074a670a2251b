[package]
name = "clau"
version = "0.1.0"
edition = "2021"
publish = false

[dependencies]
serde = { version = "=1.0.229", features = ["derive"] }
serde_json = "=1.0.154"
thiserror = "=1.0.69"
tokio = { version = "=1.54.1", features = ["process", "time", "sync", "rt", "rt-multi-thread", "macros", "io-util"] }
futures = "=0.3.34"
uuid = { version = "=1.29.0", features = ["v4"] }
tracing = "=0.1.44"
which = "=8.0.6"
