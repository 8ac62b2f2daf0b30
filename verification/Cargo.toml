[package]
name = "firehose_events"
version = "0.1.0"
edition = "2021"
publish = false

[dependencies]
hyper = "*"
metrics = "*"
tracing = "*"
