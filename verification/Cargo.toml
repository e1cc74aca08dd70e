[package]
name = "surrealdb_live_message"
version = "0.1.0"
edition = "2021"
publish = false

[dependencies]
anyhow = "*"
bollard = "*"
config = "*"
futures = "*"
miette = "*"
once_cell = "*"
reqwest = { version = "*", default-features = false }
serde = { version = "*", features = ["derive"] }
serde_json = "*"
surrealdb = "*"
tokio = { version = "*", features = ["full"] }
tokio-graceful-shutdown = "*"
tokio-stream = "*"
tracing = "*"
tracing-subscriber = "*"
