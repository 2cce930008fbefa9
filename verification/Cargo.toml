[package]
name = "agent_ui"
version = "0.1.0"
edition = "2021"
publish = false

[dependencies]
serde_json = "1"
serde = { version = "1", features = ["derive"] }
anyhow = "1"
reqwest = { version = "0.12", default-features = false, features = ["json"] }
futures = "0.3"
async-stream = "0.3"
