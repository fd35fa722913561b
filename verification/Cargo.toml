[package]
name = "raw_decoder"
version = "0.1.0"
edition = "2021"
publish = false

[dependencies]
rawler = "=0.6.0"
image = { version = "=0.24.9", default-features = false, features = ["jpeg"] }
flutter_rust_bridge = { version = "2", default-features = false }
