[package]
name = "tiny_actor"
version = "0.1.0"
edition = "2021"
publish = false

[dependencies]
concurrent-queue = "2"
event-listener = "2"
futures = "0.3"
thiserror = "1"
tokio = { version = "1", features = ["rt", "rt-multi-thread", "time", "macros"] }
