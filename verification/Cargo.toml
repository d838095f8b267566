[package]
name = "codex_native"
version = "0.1.0"
edition = "2021"
publish = false

[dependencies]
agent-client-protocol = "*"
anyhow = "1"
async-channel = "2"
chrono = "0.4"
clap = { version = "4", features = ["derive"] }
diffy = "0.4"
env_logger = "0.11"
futures = "0.3"
log = "0.4"
serde = { version = "1", features = ["derive"] }
serde_json = { version = "1", features = ["preserve_order"] }
