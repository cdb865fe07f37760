[package]
name = "persistence"
version = "0.1.0"
edition = "2021"
publish = false

[dependencies]
polodb_core = "=4.4.2"
bson = "2"
tokio = { version = "1", features = ["fs", "io-util", "rt", "sync"] }
async-dup = "*"
serde = { version = "1", features = ["derive"] }
serde_json = "1"
thiserror = "*"

[dev-dependencies]
tempfile = "*"
