[package]
name = "bwhc-kafka-rest-proxy"
version = "0.1.0"
edition = "2021"
publish = false

[dependencies]
log = "0.4"
rdkafka = "0.36"
reqwest = "0.12"
serde_json = "1"
simple_logger = "*"
tokio = { version = "1", features = ["macros", "rt"] }
