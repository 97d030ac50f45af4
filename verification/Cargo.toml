[package]
name = "devnotify"
version = "0.1.0"
edition = "2021"
publish = false

[dependencies]
ears = "*"
libnotify = "*"
ron = "*"
serde = { version = "1", features = ["derive"] }
udev = "*"
