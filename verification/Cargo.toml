[package]
name = "gulpease"
version = "0.1.0"
edition = "2021"
publish = false

[dependencies]
regex-syntax = { version = "0.8", features = ["unicode-perl"] }

[dev-dependencies]
regex = "1"
