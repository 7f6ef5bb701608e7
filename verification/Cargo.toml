[package]
name = "crawlers"
version = "0.1.0"
edition = "2021"
publish = false

[dependencies]
anyhow = "=1.0.104"
async-trait = "=0.1.92"
dotenv = "=0.15.0"
reqwest = { version = "=0.12.28", features = ["json"] }
scraper = "=0.29.0"
serde = { version = "=1.0.229", features = ["derive"] }
serde_json = "=1.0.154"
thiserror = "=1.0.69"
time = { version = "=0.3.55", features = ["serde", "formatting", "parsing"] }
tokio = { version = "=1.54.1", features = ["full"] }
tokio-cron-scheduler = "=0.15.1"
tracing = "=0.1.44"
tracing-subscriber = "=0.3.23"
