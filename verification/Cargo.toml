[package]
name = "safesec"
version = "0.1.0"
edition = "2021"
publish = false

[dependencies]
appdirs = "=0.2.0"
bytes = "=0.4.12"
clap = "=2.34.0"
futures = "=0.1.31"
lmdb = "=0.8.0"
lmdb-sys = "=0.8.0"
rmp = "0.8"
rmp-serde = "=1.3.1"
rmpv = { version = "=1.3.1", features = ["with-serde"] }
serde = "=1.0.229"
tokio-core = "=0.1.18"
tokio-io = "=0.1.13"
tokio-service = "=0.1.0"
tokio-signal = "=0.1.5"
