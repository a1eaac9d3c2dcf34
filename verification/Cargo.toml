[package]
name = "ps2_keyboard"
version = "0.1.0"
edition = "2021"
publish = false

[dependencies]
kspin = "=0.2.0"
lazy_static = "=1.5.1"
x86_64 = { version = "=0.15.5", default-features = false, features = ["instructions"] }
