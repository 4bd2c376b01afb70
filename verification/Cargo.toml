[package]
name = "media_sync"
version = "0.1.0"
edition = "2021"
publish = false

[dependencies]
chrono = "0.4"
clap = { version = "4", features = ["derive"] }
eyre = "0.6"
filetime = "0.2"
futures = "0.3"
reqwest = "0.12"
rss = "2"
serde = { version = "1", features = ["derive"] }
serde_json = "1"
tempfile = "3"
tokio = { version = "1", features = ["fs", "process", "macros", "rt-multi-thread"] }
tokio-stream = { version = "0.1", features = ["fs"] }
