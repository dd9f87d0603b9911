[package]
name = "pragma"
version = "0.1.0"
edition = "2021"
publish = false

[dependencies]
rust_decimal = { version = "=1.43.0", features = ["maths"] }
bigdecimal = { version = "=0.4.11", features = ["serde"] }
chrono = { version = "=0.4.45", features = ["serde"] }
serde = { version = "=1.0.229", features = ["derive"] }
serde_json = "=1.0.154"
starknet = { version = "=0.17.0", default-features = false }
thiserror = "=2.0.21"
anyhow = "=1.0.104"
uuid = { version = "=1.29.0", features = ["v4"] }
axum = "=0.8.9"
dashmap = "6"
