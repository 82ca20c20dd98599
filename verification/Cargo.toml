[package]
name = "niri_color"
version = "0.1.0"
edition = "2021"

[dependencies]
smithay = { version = "*", default-features = false, features = ["wayland_frontend", "renderer_gl", "backend_egl"] }
wayland-protocols = { version = "*", features = ["server", "staging"] }
wayland-server = "*"
tracing = "*"
