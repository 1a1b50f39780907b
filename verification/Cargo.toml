[package]
name = "a2"
version = "0.1.0"
edition = "2021"
publish = false

[dependencies]
http = "*"
hyper = { version = "*", features = ["full"] }
hyper-util = { version = "*", features = ["full"] }
openssl = "*"
ring = "*"
rustls = { version = "*", default-features = false, features = ["ring", "std", "tls12", "logging"] }
serde_json = "*"
tokio = { version = "*", features = ["full"] }
tokio-rustls = { version = "*", default-features = false, features = ["ring", "tls12", "logging"] }
webpki-roots = "*"
