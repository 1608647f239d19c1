[package]
name = "disagg_router"
version = "0.1.0"
edition = "2021"
publish = false

[dependencies]
anyhow = "1"
arc-swap = "1"
futures = "0.3"
rand = "0.9"
serde_json = "1"
thiserror = "2"
tokio = { version = "1", features = ["macros", "rt", "sync"] }
tokio-util = "0.7"
tracing = "0.1"
