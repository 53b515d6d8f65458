[package]
name = "transport"
version = "0.1.0"
edition = "2021"
publish = false

[dependencies]
futures = "0.3"
multiaddr = "0.18"
pin-project = "1"
