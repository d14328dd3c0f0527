[package]
name = "iced_aw"
version = "0.1.0"
edition = "2021"
publish = false

[dependencies]
iced_native = "0.5"
