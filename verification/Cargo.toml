[package]
name = "flatland"
version = "0.1.0"
edition = "2021"
publish = false

[dependencies]
winit-main = "=0.1.3"
anyhow = "=1.0.104"
glam = "*"
mint = "=0.5.9"
once_cell = "=1.21.4"
prisma = "=0.1.1"
slog = "=2.8.2"
slog-stdlog = "=4.1.1"
stereokit = "=0.4.2"
smithay = { version = "=0.7.0", default-features = false, features = ["wayland_frontend", "renderer_gl", "backend_egl", "desktop"] }
