[package]
name = "relay"
version = "0.1.0"
edition = "2021"
publish = false

[dependencies]
rustls-pemfile = "*"
anyhow = "*"
futures-util = "*"
tokio = { version = "*", features = ["rt-multi-thread", "net", "io-util", "sync", "macros"] }
tokio-rustls = { version = "*", default-features = false, features = ["ring", "tls12", "logging"] }
tokio-stream = { version = "*", features = ["sync"] }
