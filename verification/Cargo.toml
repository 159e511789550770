[package]
name = "topic_transformer"
version = "0.1.0"
edition = "2021"
publish = false

[dependencies]
boa_engine = "*"
futures = "*"
rdkafka = "*"
tokio = { version = "1", features = ["rt-multi-thread", "macros", "sync"] }
tracing = "*"
tracing-subscriber = "*"
