[package]
name = "vexv5_serial"
version = "0.1.0"
edition = "2021"
publish = false

[dependencies]
crc = "3"
serialport = { version = "4", default-features = false }
