[package]
name = "etk"
version = "0.1.0"
edition = "2021"
publish = false

[dependencies]
intmap = "=2.0.0"
egui = { version = "=0.21.0", default-features = false, features = ["default_fonts", "bytemuck"] }
winit = { version = "=0.27.5", default-features = false, features = ["x11"] }
glutin = { version = "=0.29.1", default-features = false, features = ["x11"] }
glfw-passthrough = { version = "=0.51.1", default-features = false }
sdl2 = "=0.35.2"
glow = "=0.12.3"
bytemuck = "=1.25.2"
raw-window-handle = "=0.5.2"
keyboard-types = { version = "=0.6.2", default-features = false }
bitflags = "=1.3.2"
three-d = { version = "0.15", default-features = false }
