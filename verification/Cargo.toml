[package]
name = "pe"
version = "0.1.0"
edition = "2021"
publish = false

[dependencies]
clap = { version = "4", features = ["derive"] }
comfy-table = "*"
eframe = { version = "0.29", default-features = false, features = ["default_fonts", "glow", "x11"] }
rfd = "0.15"
