[package]
name = "mcp_proxy"
version = "0.3.0"
edition = "2021"
publish = false

[dependencies]
anyhow = "=1.0.104"
clap = { version = "=4.6.7", features = ["derive"] }
futures = "=0.3.34"
http = "=1.5.0"
reqwest = { version = "=0.13.5", features = ["json", "stream"] }
rmcp = { version = "=1.5.0", features = ["client", "reqwest", "transport-async-rw", "transport-streamable-http-client-reqwest"] }
serde_json = "=1.0.154"
sse-stream = "=0.2.6"
tokio = { version = "=1.54.1", features = ["full"] }
tokio-util = { version = "=0.7.20", features = ["codec"] }
tracing = "=0.1.44"
tracing-subscriber = "=0.3.23"
