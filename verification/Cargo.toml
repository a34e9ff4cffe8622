[package]
name = "ecdh_es"
version = "0.1.0"
edition = "2021"
publish = false

[dependencies]
openssl = "0.10"
base64 = "0.13"
serde_json = "1"
