[package]
name = "socks5_server"
version = "0.1.0"
edition = "2021"
publish = false

[dependencies]
anyhow = "1"
async-trait = "0.1"
log = "0.4"
tokio = { version = "1", features = ["io-util", "macros", "net", "rt", "time"] }
tokio-stream = "0.1"
