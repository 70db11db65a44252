[package]
name = "pasteboard"
version = "0.1.0"
edition = "2021"
publish = false

[dependencies]
objc = "*"
objc-foundation = "*"
objc_id = "*"
