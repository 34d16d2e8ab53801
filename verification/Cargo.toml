[package]
name = "amqpr"
version = "0.1.0"
edition = "2021"
publish = false

[dependencies]
amqpr-api = "*"
amqpr-codec = "*"
bytes = "0.4"
ex-futures = "*"
futures = "0.1"
tokio-core = "0.1"
