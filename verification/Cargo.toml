[package]
name = "forest_sim"
version = "0.1.0"
edition = "2021"
publish = false

[dependencies]
rand = "*"
rand_xoshiro = "*"
eframe = { version = "*", default-features = false, features = ["glow", "x11", "default_fonts"] }
egui = "*"
env_logger = "*"
