[package]
name = "uvc_control"
version = "0.1.0"
edition = "2021"
publish = false

[dependencies]
nusb = "0.1"
