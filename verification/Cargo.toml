[package]
name = "pg_connect"
version = "0.1.0"
edition = "2021"
publish = false

[dependencies]
futures = "0.1"
openssl = "0.10"
tokio-io = "0.1"
tokio-openssl = "0.3"
