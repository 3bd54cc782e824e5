[package]
name = "site_mirror"
version = "0.1.0"
edition = "2021"
publish = false

[dependencies]
url = "*"
tl = "*"
reqwest = { version = "*", default-features = false, features = ["blocking"] }
eyre = "*"
color-eyre = "*"
