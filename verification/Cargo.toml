[package]
name = "football_match"
version = "0.1.0"
edition = "2021"
publish = false

[dependencies]
ink = { version = "=4.3.0", features = ["std"] }
