[package]
name = "duroxide_turso"
version = "0.1.0"
edition = "2021"
publish = false

[dependencies]
turso = "0.5"
tokio = { version = "1", features = ["sync", "time", "rt", "rt-multi-thread", "macros"] }
async-trait = "0.1"
tracing = "0.1"
tracing-subscriber = { version = "0.3", features = ["fmt", "env-filter"] }
sqlx = { version = "0.8", default-features = false, features = ["sqlite", "runtime-tokio", "migrate"] }
