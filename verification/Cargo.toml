[package]
name = "tracing_service"
version = "0.1.0"
edition = "2021"
publish = false

[dependencies]
tokio = { version = "1", features = ["sync", "rt"], default-features = false }
tower = "*"
tracing-core = "0.1"
tracing-subscriber = "0.3"
futures-core = "0.3"
