[package]
name = "ccdscan_backend"
version = "0.1.0"
edition = "2021"
publish = false

[dependencies]
anyhow = "=1.0.104"
chrono = "=0.4.45"
concordium-rust-sdk = "=5.0.0"
futures = "=0.3.34"
rust_decimal = "=1.43.0"
serde_json = "=1.0.154"
sqlx = { version = "=0.8.6", default-features = false, features = ["postgres", "runtime-tokio", "chrono", "rust_decimal", "bigdecimal"] }
tokio = { version = "=1.54.1", features = ["macros", "rt-multi-thread"] }
tokio-util = "=0.7.20"
tracing = "=0.1.44"
