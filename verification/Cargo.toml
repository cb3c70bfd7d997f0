[package]
name = "tower"
version = "0.1.0"
edition = "2021"
publish = false

[dependencies]
tower-service = "*"
tower-layer = "*"
futures-core = "*"
tokio = "*"
