[package]
name = "message"
version = "0.1.0"
edition = "2021"
publish = false

[dependencies]
dashmap = "5"
tokio = { version = "1", features = ["sync", "rt", "rt-multi-thread", "macros", "time"] }
anyhow = "1"
tracing = "0.1"
async-trait = "0.1"
lazy_static = "1"
toml = "0.5"
serde = { version = "1", features = ["derive"] }
serde_derive = "1"
