[package]
name = "winit-wayland-legacy"
version = "0.1.0"
edition = "2021"
publish = false

[dependencies]
ahash = "=0.8.12"
cursor-icon = "=1.2.0"
dpi = "=0.1.2"
calloop = "=0.13.0"
log = "=0.4.35"
tracing = "=0.1.44"
smithay-client-toolkit = { version = "=0.19.2", default-features = false }
wayland-client = "=0.31.15"
wayland-backend = "=0.3.17"
wayland-protocols-plasma = { version = "=0.3.12", features = ["client"] }
maliit = "*"
winit-core = "*"
