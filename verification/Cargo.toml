[package]
name = "hexed"
version = "0.1.0"
edition = "2021"
publish = false

[dependencies]
notify = "*"
page_size = "*"
parking_lot = "*"
shellexpand = "*"
