[package]
name = "cipher"
version = "0.1.0"
edition = "2021"
publish = false

[dependencies]
uuid = { version = "=1.29.0", features = ["v4", "serde"] }
chrono = "=0.4.45"
cron = "=0.17.0"
validator = "=0.21.0"
serde = { version = "=1.0.229", features = ["derive"] }
serde_json = "=1.0.154"
tokio = { version = "=1.54.1", features = ["full"] }
tokio-util = "=0.7.20"
tokio-stream = "=0.1.19"
async-trait = "=0.1.92"
axum = "=0.8.9"
sqlx = { version = "=0.9.0", default-features = false, features = ["runtime-tokio", "postgres", "uuid", "chrono", "derive"] }
lapin = { version = "=4.12.3", default-features = false }
reqwest = { version = "=0.13.5", default-features = false, features = ["json"] }
tracing = "=0.1.44"
tracing-subscriber = "=0.3.23"
anyhow = "=1.0.104"
thiserror = "=2.0.21"
config = { version = "=0.15.27", default-features = false, features = ["toml"] }
