[package]
name = "sway_status"
version = "0.1.0"
edition = "2021"
publish = false

[dependencies]
chrono = "*"
libc = "*"
signal-hook = "*"
