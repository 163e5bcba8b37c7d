[package]
name = "autoroto"
version = "0.1.0"
edition = "2021"
publish = false

[dependencies]
image = "0.25"
egui = "0.29"
egui_extras = "0.29"
env_logger = { version = "0.11", default-features = false }
