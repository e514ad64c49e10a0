[package]
name = "containerd_mcp"
version = "0.1.0"
edition = "2021"
publish = false

[dependencies]
anyhow = "1"
async-trait = "0.1"
axum = "=0.8.9"
clap = { version = "4", features = ["derive"] }
hyper-util = { version = "0.1", features = ["tokio"] }
reqwest = { version = "=0.13.5", default-features = false, features = ["json"] }
rmcp = { version = "=3.7.0", features = ["server", "macros", "transport-io", "transport-streamable-http-server"] }
serde = { version = "1", features = ["derive"] }
serde_json = "=1.0.154"
tokio = { version = "1", features = ["full"] }
tonic = "=0.14.6"
tower = { version = "=0.5.3", features = ["util"] }
tracing = "0.1"
tracing-subscriber = { version = "0.3", features = ["env-filter"] }
uuid = { version = "=1.29.0", features = ["v4"] }
