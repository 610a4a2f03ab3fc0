[package]
name = "klag_exporter"
version = "0.1.0"
edition = "2021"
publish = false

[dependencies]
rdkafka = { version = "*", default-features = false, features = ["tokio"] }
tokio = { version = "1", features = ["rt", "rt-multi-thread", "sync", "time", "macros"] }
tracing = "0.1"
aws-msk-iam-sasl-signer = "*"
aws-types = "*"
