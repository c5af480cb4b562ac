[package]
name = "keybd_event"
version = "0.1.0"
edition = "2021"
publish = false

[dependencies]
uinput = { version = "=0.1.3", default-features = false }
core-graphics = "=0.25.0"
