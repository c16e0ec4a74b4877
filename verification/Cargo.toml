[package]
name = "restate_toolkit"
version = "0.1.0"
edition = "2021"
publish = false

[dependencies]
restate-sdk = { version = "=0.12.1", default-features = false }
serde = { version = "=1.0.229", features = ["derive"] }
humantime-serde = "=1.1.1"
thiserror = "=2.0.21"
tokio = { version = "=1.54.1", features = ["signal", "macros", "rt"] }
tracing = "=0.1.44"
web-time = "=1.1.0"

[dev-dependencies]
bytes = "=1.12.1"
http = "=1.5.0"
http-body-util = "=0.1.5"
