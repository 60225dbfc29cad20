[package]
name = "acme_lib"
version = "0.1.0"
edition = "2021"
publish = false

[dependencies]
base64 = "0.13"
openssl = "0.10"
serde = { version = "1", features = ["derive"] }
serde_json = "1"
ureq = { version = "1", default-features = false, features = ["native-tls"] }
