[package]
name = "term_input"
version = "0.1.0"
edition = "2021"
publish = false

[dependencies]
unicode-width = "*"
