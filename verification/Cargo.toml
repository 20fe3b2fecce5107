[package]
name = "boxstrap"
version = "0.1.0"
edition = "2021"
publish = false

[dependencies]
reqwest = { version = "*", default-features = false, features = ["blocking", "rustls-tls"] }
serde_json = "*"
flate2 = "*"
tar = "*"
libc = "*"
