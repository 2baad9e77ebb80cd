[package]
name = "openaltid"
version = "0.1.0"
edition = "2021"
publish = false

[dependencies]
chrono = "0.4"
mongodb = "2"
rand = "0.8"
redis = { version = "0.23", features = ["tokio-comp"] }
serde = { version = "1", features = ["derive"] }
serenity = "0.11"
tokio = { version = "1", features = ["macros", "rt-multi-thread", "time"] }
tracing = "0.1"
tracing-subscriber = { version = "0.3", features = ["json"] }
