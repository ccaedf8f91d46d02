[package]
name = "gennaker"
version = "0.1.0"
edition = "2021"
publish = false

[dependencies]
portpicker = "*"
rand = "0.8"
fs_extra = "*"
