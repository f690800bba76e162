[package]
name = "notification_bar"
version = "0.1.0"
edition = "2021"
publish = false

[dependencies]
rand = "=0.9.5"
instant = "=0.1.13"
eframe = { version = "=0.31.1", default-features = false, features = ["default_fonts", "glow", "x11"] }
