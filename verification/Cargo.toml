[package]
name = "groundsaver"
version = "0.1.0"
edition = "2021"
publish = false

[dependencies]
bytemuck = { version = "1", features = ["derive"] }
cgmath = "0.18"
env_logger = "0.9"
fps_clock = "*"
libc = "0.2"
raw-window-handle = "0.4"
tokio = { version = "1", features = ["rt", "macros"] }
wgpu = "0.13"
x11 = { version = "2", features = ["xlib"] }
