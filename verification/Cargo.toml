[package]
name = "relay_core"
version = "0.1.0"
edition = "2021"
publish = false

[dependencies]
http = "*"
memchr = "*"
tokio = { version = "*", features = ["io-util", "net", "time", "rt", "macros"] }
cadence = "*"
