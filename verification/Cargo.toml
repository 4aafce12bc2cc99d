[package]
name = "camera_led"
version = "0.1.0"
edition = "2021"
publish = false

[dependencies]
anyhow = "*"
env_logger = "*"
log = "*"
pipewire = "*"
zbus = "*"
