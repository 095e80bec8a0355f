[package]
name = "eid"
version = "0.1.0"
edition = "2021"
publish = false

[dependencies]
tls_codec = { version = "*", features = ["derive"] }
