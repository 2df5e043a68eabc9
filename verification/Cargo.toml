[package]
name = "rsx"
version = "0.1.0"
edition = "2021"
publish = false

[dependencies]
quote = "=1.0.47"
proc-macro2 = "=1.0.107"
