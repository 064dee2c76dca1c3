[package]
name = "codex-acp"
version = "0.1.0"
edition = "2021"
publish = false

[dependencies]
agent-client-protocol = "1.0.1"
anyhow = "1"
clap = { version = "4", features = ["derive"] }
codex-protocol = "0.63.0"
futures = "0.3"
heck = "0.5"
itertools = "0.14"
serde = { version = "1", features = ["derive"] }
serde_json = "1"
tokio = { version = "1", features = ["full"] }
tokio-util = { version = "0.7", features = ["compat"] }
tracing = "0.1"
tracing-subscriber = { version = "0.3", features = ["env-filter"] }
uuid = { version = "1", features = ["v4"] }
