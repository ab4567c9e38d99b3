[package]
name = "ptouch"
version = "0.1.0"
edition = "2021"
publish = false

[dependencies]
base64 = "0.22"
qrcode = { version = "0.14", default-features = false }
qrcodegen = "1.8"
image = { version = "0.25", default-features = false }
cosmic-text = "*"
egui = { version = "*", default-features = false }
log = "0.4"
rusb = "0.9"
serde = { version = "1", features = ["derive"] }
