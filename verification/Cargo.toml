[package]
name = "dunward_renderer"
version = "0.1.0"
edition = "2021"
publish = false

[dependencies]
ash = "0.38"
vk-mem = "0.4"
winit = "0.30"
log = "0.4"
color-eyre = "0.6"
env_logger = "0.11"
