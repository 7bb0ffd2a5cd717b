[package]
name = "spiral_blue"
version = "0.1.0"
edition = "2021"
publish = false

[dependencies]
chrono = "=0.4.45"
log = "=0.4.34"
serial = "=0.4.0"
