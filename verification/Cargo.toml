[package]
name = "async-sleep"
version = "0.1.0"
edition = "2021"
publish = false

[dependencies]
async-io = "=2.6.0"
async-timer = "=0.7.4"
futures-util = { version = "=0.3.34", features = ["io"] }
tokio = { version = "=1.54.1", features = ["time"] }
