[package]
name = "fix_zhuyin"
version = "0.1.0"
edition = "2021"
publish = false

[dependencies]
anyhow = "1"
arboard = { version = "3", default-features = false }
dirs = "*"
enigo = "0.1"
image = { version = "0.25", default-features = false, features = ["ico", "png"] }
once_cell = "1"
serde = { version = "1", features = ["derive"] }
serde_json = "1"
