[package]
name = "quickwit-actors"
version = "0.1.0"
edition = "2021"
publish = false

[dependencies]
anyhow = "1"
async-trait = "0.1"
flume = "*"
serde = { version = "1", features = ["derive"] }
serde_json = "1"
tantivy = "*"
tempfile = "3"
thiserror = "*"
tokio = { version = "1", features = ["rt", "rt-multi-thread", "sync", "time"] }
tracing = "0.1"
ulid = "*"
uuid = { version = "*", features = ["v4"] }
