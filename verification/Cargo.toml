[package]
name = "filehub"
version = "0.1.0"
edition = "2021"
publish = false

[dependencies]
uuid = { version = "1", features = ["v4", "v7", "serde"] }
serde = { version = "1", features = ["derive"] }
serde_json = "1"
thiserror = "2"
anyhow = "1"
tracing = "0.1"
tracing-subscriber = { version = "0.3", features = ["env-filter", "json"] }
tokio = { version = "1", features = ["full"] }
tokio-util = "0.7"
futures = "0.3"
chrono = { version = "0.4", features = ["serde"] }
zip = { version = "*", default-features = false, features = ["deflate"] }
libloading = "0.8"
validator = { version = "*", features = ["derive"] }
tokio-cron-scheduler = "*"
winreg = "*"
async-trait = "0.1"

[dev-dependencies]
tempfile = "3"
toml = "*"
