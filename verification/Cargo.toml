[package]
name = "finchers"
version = "0.1.0"
edition = "2021"
publish = false

[dependencies]
percent-encoding = "2"
mime_guess = "2"
