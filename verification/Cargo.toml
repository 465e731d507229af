[package]
name = "eframe_template"
version = "0.1.0"
edition = "2021"
publish = false

[dependencies]
image = { version = "=0.25.10", default-features = false, features = ["png", "jpeg"] }
eframe = { version = "=0.22.0", default-features = false, features = ["glow"] }
ehttp = "=0.7.1"
poll-promise = "=0.3.0"
