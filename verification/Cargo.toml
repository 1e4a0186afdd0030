[package]
name = "quic_driver"
version = "0.1.0"
edition = "2021"
publish = false

[dependencies]
futures = "0.1"
quiche = "0.1"
tokio-sync = "0.1"
tokio-timer = "0.2"
