[package]
name = "jmcgmqp"
version = "0.1.0"
edition = "2021"
publish = false

[dependencies]
postgres = "0.19"
prometheus = { version = "0.13", features = ["push"] }
