[package]
name = "grpc_demo"
version = "0.1.0"
edition = "2021"
publish = false

[dependencies]
rand = "0.8"
tonic = "0.12"
tokio = { version = "1", features = ["macros", "rt-multi-thread", "sync", "time"] }
tokio-stream = "0.1"
async-stream = "0.3"
