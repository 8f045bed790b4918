[package]
name = "dyn_wrap"
version = "0.1.0"
edition = "2021"
publish = false

[dependencies]
dyn_sized = "*"
