[package]
name = "nexus_verify"
version = "0.1.0"
edition = "2021"
publish = false

[dependencies]
anyhow = "1"
ark-serialize = { version = "0.4", features = ["std"] }
tracing = "0.1"
