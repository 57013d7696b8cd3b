[package]
name = "usb2ble"
version = "0.1.0"
edition = "2021"
publish = false

[dependencies]
esp-idf-svc = "*"
esp-idf-sys = "*"
