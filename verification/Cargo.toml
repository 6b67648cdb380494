[package]
name = "webbrot"
version = "0.1.0"
edition = "2021"
publish = false

[dependencies]
num = "*"
fastrand = "*"
base64 = "*"
image = { version = "*", default-features = false, features = ["png"] }
