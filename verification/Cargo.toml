[package]
name = "nvim_oxi"
version = "0.1.0"
edition = "2021"
publish = false

[dependencies]
luajit-bindings = "*"
serde = { version = "1", features = ["derive"] }
thiserror = "1"
