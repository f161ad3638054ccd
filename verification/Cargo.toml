[package]
name = "epd1in54_v3"
version = "0.1.0"
edition = "2021"
publish = false

[dependencies]
embedded-hal = "1"
