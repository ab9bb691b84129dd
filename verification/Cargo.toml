[package]
name = "hoopoe"
version = "0.1.0"
edition = "2021"
publish = false

[dependencies]
hex = "*"
wallexerr = "*"
serde = { version = "*", features = ["derive"] }
serde_json = "*"
chrono = "*"
tokio = { version = "*", features = ["rt", "rt-multi-thread", "sync", "macros"] }
deadpool-lapin = "*"
deadpool-redis = "*"
futures = "*"
actix = "*"
