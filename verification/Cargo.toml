[package]
name = "ethos_client"
version = "0.1.0"
edition = "2021"
publish = false

[dependencies]
debug_print = "1.0.0"
