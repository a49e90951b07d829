[package]
name = "collabeat"
version = "0.1.0"
edition = "2021"
publish = false

[dependencies]
serde_json = "1"

[dev-dependencies]
ethabi = "18"
hex = "0.4"
