[package]
name = "mcp-utils"
version = "0.1.0"
edition = "2021"
publish = false

[dependencies]
async-trait = "=0.1.92"
clap = { version = "=4.6.7", features = ["string"] }
humantime = "=2.4.0"
rust-mcp-sdk = { version = "=0.7.4", default-features = false, features = ["client", "server", "macros", "stdio", "sse", "streamable-http", "hyper-server", "ssl", "2025_06_18"] }
serde = { version = "=1.0.229", features = ["derive"] }
serde_json = "=1.0.154"
tokio = { version = "=1.54.1", features = ["rt-multi-thread"] }
