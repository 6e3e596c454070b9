[package]
name = "bevy_pkv"
version = "0.1.0"
edition = "2021"
publish = false

[dependencies]
redb = "*"
rmp-serde = "*"
serde = "*"
serde_json = "*"
thiserror = "*"
