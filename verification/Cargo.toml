[package]
name = "derp_mesh"
version = "0.1.0"
edition = "2021"
publish = false

[dependencies]
reqwest = { version = "0.11", default-features = false }
tokio = { version = "1", features = ["rt"] }
tokio-util = "0.7"
tracing = "0.1"
