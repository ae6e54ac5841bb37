[package]
name = "amule-mcp"
version = "0.1.0"
edition = "2021"
publish = false

[dependencies]
serde_json = "1"
tokio = { version = "1", features = ["io-std", "io-util", "process", "rt-multi-thread", "macros"] }
