[package]
name = "vulkan_testing"
version = "0.1.0"
edition = "2021"
publish = false

[dependencies]
anyhow = "1"
ash = "0.38"
ash-window = "0.13"
log = "0.4"
pretty_env_logger = "0.5"
winit = "0.29"
