[package]
name = "lankm"
version = "0.1.0"
edition = "2021"
publish = false

[dependencies]
evdev = "*"
log = "*"
simple_logger = "*"
clap = { version = "*", features = ["derive"] }
