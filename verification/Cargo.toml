[package]
name = "opt_executor"
version = "0.1.0"
edition = "2021"
publish = false

[dependencies]
hex = "0.4"
chrono = "0.4"
tokio = { version = "1", features = ["rt", "rt-multi-thread", "sync", "time", "macros"] }
async-channel = "2"
futures = "0.3"
anyhow = "1"
