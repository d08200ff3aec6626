[package]
name = "assert_or_bless"
version = "0.1.0"
edition = "2021"
publish = false

[dependencies]
similar-asserts = "*"
