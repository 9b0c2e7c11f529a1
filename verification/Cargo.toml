[package]
name = "io_peek"
version = "0.1.0"
edition = "2021"
publish = false

[dependencies]
futures-util = { version = "0.3", features = ["io"] }
async-io = "1"
tokio = { version = "1", features = ["net"] }

[dev-dependencies]
futures-executor = "0.3"
