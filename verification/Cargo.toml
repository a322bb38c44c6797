[package]
name = "padmux"
version = "0.1.0"
edition = "2021"
publish = false

[dependencies]
evdev = "*"
parking_lot = "*"
