[package]
name = "ziplinter"
version = "0.1.0"
edition = "2021"
publish = false

[dependencies]
crc32fast = "1"
chardetng = "0.1"
encoding_rs = "0.8"
serde = { version = "1", features = ["derive"] }
serde_json = "1"
