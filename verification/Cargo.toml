[package]
name = "collab_panel"
version = "0.1.0"
edition = "2021"
publish = false

[dependencies]
gpui2 = "*"
