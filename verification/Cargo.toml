[package]
name = "mocha_core"
version = "0.1.0"
edition = "2021"
publish = false

[dependencies]
bytemuck = "1"
glow = "0.12"
glutin = "0.30"
glutin-winit = "0.3"
raw-window-handle = "0.5"
winit = "0.28"
