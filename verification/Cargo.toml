[package]
name = "yunara"
version = "0.1.0"
edition = "2021"
publish = false

[dependencies]
croner = "*"
uuid = { version = "1", features = ["v4"] }
chrono = "0.4"
tokio = { version = "1", features = ["rt-multi-thread", "macros", "sync", "time", "fs", "io-util"] }
tokio-util = "0.7"
async-trait = "0.1"
serde = { version = "1", features = ["derive"] }
serde_json = "1"
sqlx = { version = "0.8", default-features = false, features = ["sqlite", "runtime-tokio"] }
dirs = "6"
tracing = "0.1"
prometheus = { version = "0.13", default-features = false }
lazy_static = "1"
futures = "0.3"
moka = { version = "0.12", features = ["future"] }
parking_lot = "0.12"
ytmapi-rs = "*"
