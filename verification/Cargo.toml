[package]
name = "refresh_view"
version = "0.1.0"
edition = "2021"
publish = false

[dependencies]
arc-swap = "0.4"
futures = "0.3"
futures-ticker = "*"
smol = "0.1"
