[package]
name = "kaspa_ng"
version = "0.1.0"
edition = "2021"
publish = false

[dependencies]
kaspa-addresses = "*"
qrcode = "*"
