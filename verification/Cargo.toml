[package]
name = "rime_api"
version = "0.1.0"
edition = "2021"
publish = false

[dependencies]
home = "*"
once_cell = "*"
serde = { version = "*", features = ["derive"] }
thiserror = "*"
