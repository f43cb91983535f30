[package]
name = "chaos-kit"
version = "0.1.1"
edition = "2021"
publish = false

[dependencies]
tokio = { version = "1", features = ["rt", "rt-multi-thread", "time", "test-util"] }
tower = "0.5"
