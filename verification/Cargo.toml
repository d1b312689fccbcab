[package]
name = "kafka_source"
version = "0.1.0"
edition = "2021"
publish = false

[dependencies]
bytes = "=0.4.12"
futures = "0.3"
owning_ref = "=0.4.1"
rdkafka = "=0.25.0"
serde = { version = "=1.0.229", features = ["derive"] }
snafu = "=0.6.10"
typetag = "=0.1.8"
