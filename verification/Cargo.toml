[package]
name = "eye_hal"
version = "0.1.0"
edition = "2021"
publish = false

[dependencies]
uvc = "*"
