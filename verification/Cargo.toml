[package]
name = "polling"
version = "0.1.0"
edition = "2021"
publish = false

[dependencies]
rustix = { version = "=1.1.6", features = ["event", "fs", "net", "pipe", "std", "time"] }
tracing = "=0.1.44"

[dev-dependencies]
fastrand = "=2.5.0"
