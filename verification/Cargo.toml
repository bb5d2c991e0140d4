[package]
name = "usb_otg"
version = "0.1.0"
edition = "2021"
publish = false

[dependencies]
embassy-usb-driver = "0.1"
