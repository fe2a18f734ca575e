[package]
name = "egui_opengl_app"
version = "0.1.0"
edition = "2021"
publish = false

[dependencies]
bytemuck = "1"
clap = { version = "4", features = ["derive"] }
dirs = "5"
egui = "0.29"
egui_glow = "0.29"
egui-winit = "0.29"
glow = "0.14"
glutin = "0.32"
glutin-winit = "0.5"
nalgebra-glm = "0.19"
raw-window-handle = "0.6"
rfd = "0.15"
serde = { version = "1", features = ["derive"] }
serde_json = "1"
winit = "0.30"
