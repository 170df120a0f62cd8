[package]
name = "agent-bridge"
version = "0.1.0"
edition = "2021"
publish = false

[dependencies]
agent-client-protocol = { version = "=5.0.0", features = ["process"] }
libc = "=0.2.191"
rmcp = { version = "=3.8.0", features = ["server"] }
rusqlite = { version = "=0.41.1", features = ["bundled"] }
serde = { version = "=1.0.229", features = ["derive"] }
serde_json = "=1.0.154"
sha2 = "=0.10.9"
tokio = { version = "=1.54.1", features = ["full"] }
tokio-util = "=0.7.20"
