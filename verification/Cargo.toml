[package]
name = "blam"
version = "0.1.0"
edition = "2021"
publish = false

[dependencies]
git2 = { version = "=0.21.0", default-features = false }
chrono = "=0.4.45"
timeago = "=0.6.1"
mlua = "=0.8.10"
nvim-utils = "=0.1.12"
