[package]
name = "quest_passer"
version = "0.1.0"
edition = "2021"
publish = false

[dependencies]
image = { version = "*", default-features = false, features = ["png", "bmp"] }
ureq = { version = "*", default-features = false }
serde_json = "*"
