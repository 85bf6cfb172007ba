[package]
name = "at_terminal"
version = "0.1.0"
edition = "2021"
publish = false

[dependencies]
serialport = { version = "*", default-features = false }
rustyline = "*"
rustyline-derive = "*"
chrono = "*"
env_logger = "*"
serde = { version = "*", features = ["derive"] }
wmi = "*"
