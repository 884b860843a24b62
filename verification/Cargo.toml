[package]
name = "http_tunnel"
version = "0.1.0"
edition = "2021"
publish = false

[dependencies]
async-trait = "0.1"
bytes = "1"
futures = "0.3"
rustls = "0.20"
rustls-pemfile = "1.0"
thiserror = "1"
tokio = { version = "1", features = ["full"] }
tokio-rustls = "0.23"
tokio-util = { version = "0.7", features = ["codec"] }
