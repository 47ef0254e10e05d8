[package]
name = "ecast"
version = "0.1.0"
edition = "2021"
publish = false

[dependencies]
tokio = { version = "*", features = ["full"] }
clap = { version = "*", features = ["derive"] }
tokio-stream = "*"
tonic = "*"
