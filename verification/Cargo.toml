[package]
name = "agent_threads"
version = "0.1.0"
edition = "2021"
publish = false

[dependencies]
shlex = "1"
tokio = { version = "1", features = ["sync", "rt", "macros"] }
tokio-util = "0.7"
tracing = "0.1"
uuid = { version = "1", features = ["v4"] }
