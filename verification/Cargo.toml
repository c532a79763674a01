[package]
name = "fund_forge"
version = "0.1.0"
edition = "2021"
publish = false

[dependencies]
ahash = "0.8"
chrono = "0.4"
dashmap = "6"
futures = "0.3"
rkyv = { version = "0.7", features = ["validation"] }
rust_decimal = "1"
tokio = { version = "1", features = ["macros", "rt", "rt-multi-thread", "sync", "time"] }
