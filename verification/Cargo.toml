[package]
name = "waterer"
version = "0.1.0"
edition = "2021"
publish = false

[dependencies]
anyhow = "1"
chrono = { version = "0.4", features = ["serde"] }
dirs = "6"
env_logger = "0.11"
serde = { version = "1", features = ["derive"] }
sqlx = { version = "0.8", default-features = false, features = ["sqlite", "runtime-tokio", "chrono", "derive", "migrate"] }
tokio = { version = "1", features = ["sync", "time", "rt-multi-thread"] }
toml = "0.8"
uuid = { version = "1", features = ["v4"] }
