[package]
name = "passthru_driver"
version = "1.0.0"
edition = "2021"
publish = false

[dependencies]
serde_json = "*"
serialport = { version = "*", default-features = false }
shellexpand = "*"
lazy_static = "*"
libc = "*"
j2534_rust = "*"
