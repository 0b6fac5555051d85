[package]
name = "avrman"
version = "0.1.0"
edition = "2021"
publish = false

[dependencies]
ihex = "3"
thiserror = "*"
clap = { version = "4", features = ["derive"] }
indicatif = "*"
tracing = "0.1"
tracing-subscriber = "0.3"
serialport = { version = "4", default-features = false }
