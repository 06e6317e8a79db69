[package]
name = "mania"
version = "0.1.0"
edition = "2021"
publish = false

[dependencies]
dashmap = "6"
hex = "0.4"
md-5 = "0.10"
sha1 = "0.10"
chrono = "0.4"
uuid = { version = "1", features = ["v4", "serde"] }
serde = { version = "1", features = ["derive"] }
serde_json = "1"
prost = "0.13"
bytes = "1"
rand = "0.8"
tokio = { version = "1", features = ["net", "time", "fs", "sync", "rt", "io-util"] }
reqwest = { version = "0.12", default-features = false }
