[package]
name = "idtp"
version = "0.1.0"
edition = "2021"
publish = false

[dependencies]
crc = "3"
hmac = "0.12"
sha2 = "0.10"
zerocopy = { version = "0.8", features = ["derive"] }
