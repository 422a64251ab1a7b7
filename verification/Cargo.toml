[package]
name = "gif_maker"
version = "0.1.0"
edition = "2021"
publish = false

[dependencies]
gif = "0.13"
image = { version = "0.25", default-features = false, features = ["png"] }
glob = "0.3"
tempfile = "3"
eframe = { version = "0.29", default-features = false, features = ["default_fonts", "glow", "x11"] }
rfd = "0.15"
