[package]
name = "chissor"
version = "0.2.0"
edition = "2021"
publish = false

[dependencies]
jieba-rs = "*"
eframe = { version = "*", default-features = false, features = ["glow", "x11", "default_fonts"] }
rfd = "*"
