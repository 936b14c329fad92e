[package]
name = "houston"
version = "0.1.0"
edition = "2021"
publish = false

[dependencies]
ratatui = "0.29"
crossterm = "0.28"
base64 = "0.22"
tokio = { version = "1", features = ["macros", "rt-multi-thread", "sync", "time"] }
octocrab = "0.44"
serde = { version = "1", features = ["derive"] }
serde_json = "1"
serde_yaml = "0.9"
toml = "0.8"
thiserror = "2"
async-trait = "0.1"
chrono = "0.4"
