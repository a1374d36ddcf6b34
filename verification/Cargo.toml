[package]
name = "proxy_resilience"
version = "0.1.0"
edition = "2021"
publish = false

[dependencies]
http = "=1.5.0"
rand = { version = "=0.8.8", features = ["small_rng"] }
