[package]
name = "lights"
version = "0.1.0"
edition = "2021"
publish = false

[dependencies]
image = { version = "*", default-features = false, features = ["png", "jpeg"] }
glium = "*"
gl = "*"
log = "*"
env_logger = "*"
