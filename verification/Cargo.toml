[package]
name = "ask"
version = "0.1.0"
edition = "2021"
publish = false

[dependencies]
rpassword = "=5.0.1"
term-painter = "*"
