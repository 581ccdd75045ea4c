[package]
name = "status_screen"
version = "0.1.0"
edition = "2021"
publish = false

[dependencies]
git2 = { version = "*", default-features = false }
ratatui = { version = "*", default-features = false }
