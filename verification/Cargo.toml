[package]
name = "hex_patch"
version = "0.1.0"
edition = "2021"
publish = false

[dependencies]
mlua = { version = "0.9", features = ["lua54", "vendored"] }
clap = { version = "4", features = ["derive"] }
crossterm = "*"
