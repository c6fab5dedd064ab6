[package]
name = "powervoice"
version = "0.1.0"
edition = "2021"
publish = false

[dependencies]
crc32fast = "1"
serde = { version = "1", features = ["derive"] }
serde_json = "1"
directories = "5"
anyhow = "1"
ts-rs = "10"
tracing = "0.1"
