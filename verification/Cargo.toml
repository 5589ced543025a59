[package]
name = "tower-h2"
version = "0.1.0"
edition = "2021"
publish = false

[dependencies]
bytes = "0.4"
futures = "0.1"
h2 = "0.1"
http = "0.1"
log = "0.4"
tokio-io = "0.1"
tower-service = "0.2"
