[package]
name = "semtech_udp"
version = "0.1.0"
edition = "2021"
publish = false

[dependencies]
base64 = "0.22"
mio = "0.6"
serde_json = "1"
