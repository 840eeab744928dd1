[package]
name = "freya_platform"
version = "0.1.0"
edition = "2021"
publish = false

[dependencies]
torin = "*"
accesskit = "*"
bytes = "*"
mundy = "*"
freya-clipboard = "*"
