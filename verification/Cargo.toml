[package]
name = "task_group"
version = "0.1.0"
edition = "2021"
publish = false

[dependencies]
tokio = { version = "1", features = ["rt", "sync"] }
futures-util = "0.3"
lazy_static = "1"
