[package]
name = "openleash"
version = "0.1.0"
edition = "2021"
publish = false
rust-version = "1.95"

[dependencies]
regex = "=1.13.1"
sha2 = "=0.10.9"
hex = "=0.4.3"
chrono = { version = "=0.4.45", features = ["serde"] }
uuid = { version = "=1.29.0", features = ["v4", "serde"] }
serde = { version = "=1.0.229", features = ["derive"] }
serde_yaml = "=0.9.34"
serde_json = "=1.0.154"
sqlx = { version = "=0.8.6", default-features = false, features = ["sqlite", "runtime-tokio", "chrono", "macros"] }
tokio = { version = "=1.54.1", features = ["full"] }
clap = { version = "=4.6.7", features = ["derive", "env"] }
anyhow = "=1.0.104"
async-trait = "=0.1.92"
tracing = "=0.1.44"
tracing-subscriber = "=0.3.23"
