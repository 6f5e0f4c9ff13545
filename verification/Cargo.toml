[package]
name = "expo_gifski"
version = "0.1.0"
edition = "2021"
publish = false

[dependencies]
gifski = "=1.34.0"
thiserror = "*"
