[package]
name = "serialquery"
version = "0.1.0"
edition = "2021"
publish = false

[dependencies]
anyhow = "1"
clap = { version = "4", features = ["derive"] }
hexdump = "*"
serialport = { version = "4", default-features = false }
