[package]
name = "icm40627"
version = "0.1.0"
edition = "2021"
publish = false

[dependencies]
embedded-hal-async = "1"
