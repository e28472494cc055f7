[package]
name = "vkboot"
version = "0.1.0"
edition = "2021"
publish = false

[dependencies]
anyhow = "=1.0.104"
log = "=0.4.34"
pretty_env_logger = "=0.5.0"
vulkanalia = { version = "=0.35.0", features = ["libloading", "window"] }
winit = "=0.29.15"
