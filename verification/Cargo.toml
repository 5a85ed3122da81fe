[package]
name = "flowgen"
version = "0.1.0"
edition = "2021"
publish = false

[dependencies]
arrow = { version = "*", default-features = false, features = ["ipc"] }
async-trait = "0.1"
bson = "2"
futures = "0.3"
futures-util = "0.3"
humantime-serde = "1"
mongodb = "3"
rdkafka = { version = "*", default-features = false, features = ["tokio"] }
serde = { version = "1", features = ["derive"] }
serde_json = "1"
thiserror = "2"
tokio = { version = "1", features = ["sync", "rt", "rt-multi-thread", "time", "macros"] }
tokio-retry = "*"
tracing = "0.1"
