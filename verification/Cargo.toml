[package]
name = "rfm96w"
version = "0.1.0"
edition = "2021"
publish = false

[dependencies]
anyhow = "1"
bit_field = "0.10"
rppal = "*"
spin_sleep = "*"
