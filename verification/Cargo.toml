[package]
name = "magnus"
version = "0.1.0"
edition = "2021"
publish = false

[dependencies]
chrono = "0.4"
jiff = "0.2"
rb-sys = "0.9"
