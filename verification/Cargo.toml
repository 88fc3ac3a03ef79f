[package]
name = "lucidity"
version = "0.1.0"
edition = "2021"
publish = false

[dependencies]
rand = "0.8"
lunatic = "*"
nightfly = "*"
serde = "1"
serde_json = "1"
