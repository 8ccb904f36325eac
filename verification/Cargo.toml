[package]
name = "speed_math"
version = "0.1.0"
edition = "2021"
publish = false

[dependencies]
chrono = "*"
rand = "*"
eframe = { version = "*", default-features = false, features = ["glow", "x11", "default_fonts"] }
