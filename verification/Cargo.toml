[package]
name = "stuckbar"
version = "0.1.0"
edition = "2021"
publish = false

[dependencies]
axum = "*"
clap = { version = "*", features = ["derive"] }
colored = "*"
rmcp = { version = "*", features = ["server", "transport-io", "transport-sse-server", "macros"] }
tokio = { version = "*", features = ["full"] }
tokio-util = "*"
