[package]
name = "takeflight"
version = "0.1.0"
edition = "2021"
publish = false

[dependencies]
chrono = "=0.4.45"
serde = { version = "=1.0.229", features = ["derive"] }
serde_json = "=1.0.154"
mio = { version = "=1.2.4", features = ["os-poll", "net"] }
image = { version = "=0.25.10", default-features = false, features = ["png", "jpeg"] }
local-ip-address = "=0.6.13"
openh264 = "*"
