[package]
name = "aht20"
version = "0.1.0"
edition = "2021"
publish = false

[dependencies]
crc_all = "=0.2.2"
embedded-hal-async = "=1.0.0"
