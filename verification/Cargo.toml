[package]
name = "kafka_codec"
version = "0.1.0"
edition = "2021"
publish = false

[dependencies]
bytes = "1"
tokio = { version = "1", features = ["rt-multi-thread", "net", "io-util", "macros"] }
anyhow = "1"
tracing = "0.1"
tracing-subscriber = "0.3"
