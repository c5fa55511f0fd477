[package]
name = "vk_triangle"
version = "0.1.0"
edition = "2021"
publish = false

[dependencies]
anyhow = "1"
cgmath = "0.18"
log = "0.4"
pretty_env_logger = "0.5"
shaderc = "0.8"
thiserror = "1"
vulkanalia = { version = "*", features = ["libloading", "window"] }
winit = "0.29"
