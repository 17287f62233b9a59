[package]
name = "cokacdir"
version = "0.1.0"
edition = "2021"
publish = false

[dependencies]
unicode-width = "=0.2.2"
dirs = "=7.0.0"
libc = "=0.2.191"
chrono = "=0.4.45"
base64 = "=0.23.1"
md-5 = "=0.11.0"
serde_json = "=1.0.154"
sha2 = "=0.11.1"
hex = "=0.4.3"
rand = "*"
