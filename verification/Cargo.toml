[package]
name = "screenkey"
version = "0.1.0"
edition = "2021"
publish = false

[dependencies]
evdev = "*"
serde = { version = "*", features = ["derive"] }
