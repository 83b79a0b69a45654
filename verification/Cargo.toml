[package]
name = "pkg_menu"
version = "0.1.0"
edition = "2021"

[dependencies]
dialoguer = { version = "=0.12.0", features = ["fuzzy-select"] }
