[package]
name = "textui"
version = "0.1.0"
edition = "2021"
publish = false

[dependencies]
bitmap = "*"
log = "*"
system_error = "*"
