[package]
name = "yuha"
version = "0.1.0"
edition = "2021"
publish = false

[dependencies]
uuid = { version = "1", features = ["v4"] }
url = "2"
serde = { version = "1", features = ["derive"] }
serde_json = "1"
toml = "0.8"
tokio = { version = "1", features = ["full"] }
tracing = "0.1"
tracing-subscriber = { version = "0.3", features = ["env-filter", "json"] }
clap = { version = "4", features = ["derive"] }
dirs = "5"
fastrand = "2"
once_cell = "1"
bytes = { version = "1", features = ["serde"] }
async-trait = "0.1"
thiserror = "1"
anyhow = "1"
