[package]
name = "string_conversions"
version = "0.1.0"
edition = "2021"
publish = false

[dependencies]
anyhow = "1"
askama = "*"
command-run = "*"
fehler = "1"
syntect = { version = "*", default-features = false, features = ["default-fancy"] }
textwrap = "*"
