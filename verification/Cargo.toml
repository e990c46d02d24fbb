[package]
name = "yazelix_venus"
version = "0.1.0"
edition = "2021"
publish = false

[dependencies]
winit = "0.30"
wgpu = "*"
glyphon = "*"
accesskit = "*"
accesskit_winit = "*"
arboard = "*"
wl-clipboard-rs = "*"
pollster = "*"
unicode-script = "*"
