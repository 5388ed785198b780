[package]
name = "dns_adapter"
version = "0.1.0"
edition = "2021"
publish = false

[dependencies]
futures = "0.3"
hyper = { version = "0.14", features = ["client", "tcp"] }
reqwest = { version = "0.11", default-features = false }
trust-dns-resolver = "0.22"
