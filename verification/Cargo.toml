[package]
name = "revault_gui"
version = "0.1.0"
edition = "2021"
publish = false

[dependencies]
bitcoin = "0.27"
chrono = "0.4"
iced = { version = "0.4", default-features = false, features = ["glow", "qr_code"] }
