[package]
name = "screensaver"
version = "0.1.0"
edition = "2021"
publish = false

[dependencies]
embedded-graphics = "0.8"
rand = { version = "0.8.5", features = ["small_rng"], default-features = false }
