[package]
name = "wealthvn_core"
version = "0.1.0"
edition = "2021"
publish = false

[dependencies]
chrono = { version = "*", features = ["serde"] }
rust_decimal = { version = "*", features = ["serde"] }
serde = { version = "*", features = ["derive"] }
serde_json = "*"
tokio = { version = "*", features = ["sync", "rt-multi-thread", "macros"] }
async-trait = "*"
axum = "*"
diesel = { version = "*", features = ["chrono"] }
