[package]
name = "shader"
version = "0.1.0"
edition = "2021"
publish = false

[dependencies]
anyhow = "1"
clap = { version = "4", features = ["derive"] }
glow = "0.13"
glutin = "0.31"
glutin-winit = "0.4"
image = { version = "0.24", default-features = false, features = ["png", "jpeg"] }
raw-window-handle = "0.5"
smol = "2"
tracing = "0.1"
tracing-subscriber = "0.3"
winit = "0.29"
