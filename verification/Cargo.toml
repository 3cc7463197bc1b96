[package]
name = "rkvm_input"
version = "0.1.0"
edition = "2021"
publish = false

[dependencies]
futures = "0.3"
inotify = "0.10"
serde = { version = "1", features = ["derive"] }
tokio = { version = "1", features = ["rt", "sync", "fs", "macros"] }
tracing = "0.1"
