[package]
name = "clearframe"
version = "0.1.0"
edition = "2021"
publish = false

[dependencies]
ash = "0.37"
ash-window = "0.12"
winit = "0.28"
raw-window-handle = "0.5"
