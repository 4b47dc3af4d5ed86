[package]
name = "aim_trainer"
version = "0.1.0"
edition = "2021"
publish = false

[dependencies]
winsafe = { version = "0.0.27", features = ["gui"] }
