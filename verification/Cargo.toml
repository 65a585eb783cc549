[package]
name = "wv"
version = "0.1.0"
edition = "2021"
publish = false

[dependencies]
gtk4 = "*"
webkit6 = "*"
toml = "*"
serde = "*"
serde_derive = "*"
