[package]
name = "niri_windows"
version = "0.1.0"
edition = "2021"
publish = false

[dependencies]
anyhow = "=1.0.104"
async-channel = "=2.5.0"
calloop = "=0.14.5"
cursor-icon = "=1.2.0"
knuffel = "=3.2.0"
miette = "=5.10.0"
serde = { version = "=1.0.229", features = ["derive"] }
smithay = { version = "=0.7.0", default-features = false, features = ["wayland_frontend", "desktop", "renderer_gl"] }
zbus = "=5.19.0"
