[package]
name = "mine_status"
version = "0.1.0"
edition = "2021"
publish = false

[dependencies]
kdl = "4"
anyhow = "1"
tokio = { version = "1", features = ["full"] }
axum = "0.6"
hyper = { version = "0.14", features = ["full"] }
askama = "0.12"
tracing = "0.1"
tracing-subscriber = { version = "0.3", features = ["env-filter"] }
