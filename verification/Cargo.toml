[package]
name = "orders_core"
version = "0.1.0"
edition = "2021"
publish = false

[dependencies]
validator = "*"
serde = { version = "*", features = ["derive"] }
serde_json = "*"
axum = "*"
tokio = { version = "*", features = ["macros", "rt-multi-thread", "net"] }
tokio-postgres = { version = "*", features = ["with-serde_json-1"] }
tracing = "*"
tracing-subscriber = "*"
