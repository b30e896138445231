[package]
name = "report_form"
version = "0.1.0"
edition = "2021"
publish = false

[dependencies]
url = "=2.5.8"
eframe = { version = "=0.31.1", default-features = false, features = ["glow", "x11"] }
