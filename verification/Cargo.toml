[package]
name = "file_browser"
version = "0.1.0"
edition = "2021"
publish = false

[dependencies]
image = { version = "*", default-features = false, features = ["png", "jpeg", "gif", "bmp", "webp", "ico", "tiff"] }
crossterm = "*"
ratatui = "*"
syntect = { version = "*", default-features = false, features = ["default-fancy"] }
tokio = { version = "*", features = ["macros", "rt-multi-thread"] }
walkdir = "*"
