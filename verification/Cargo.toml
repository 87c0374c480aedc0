[package]
name = "winpaste"
version = "0.1.0"
edition = "2021"
publish = false

[dependencies]
sha2 = "0.10"
image = { version = "0.24", default-features = false, features = ["png"] }
arboard = "3"
