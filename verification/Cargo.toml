[package]
name = "tunstack"
version = "0.1.0"
edition = "2021"
publish = false

[dependencies]
smoltcp = "*"
tokio = { version = "1", features = ["sync", "time", "rt", "macros", "io-util"] }
tokio-util = "*"
futures = "0.3"
spin = "*"
rand = "*"
