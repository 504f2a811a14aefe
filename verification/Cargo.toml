[package]
name = "orchy"
version = "0.1.0"
edition = "2021"
publish = false

[dependencies]
serde = { version = "1", features = ["derive"] }
serde_json = "1"
regex = "1"
tokio = { version = "1", features = ["full"] }
tokio-retry = "0.3"
clap = "4"
tracing = "0.1"
tracing-subscriber = "0.3"
thiserror = "1"
chrono = "0.4"
uuid = { version = "1", features = ["v4", "serde"] }
dotenv = "0.15"
rusqlite = { version = "*", features = ["bundled"] }

[dev-dependencies]
tempfile = "3"
