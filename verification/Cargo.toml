[package]
name = "key_names"
version = "0.1.0"
edition = "2021"
publish = false

[dependencies]
winit = "=0.30.13"
xkbcommon = { version = "=0.8.0", features = ["x11", "wayland"] }
wayland-client = "=0.31.15"
xcb = { version = "=1.7.1", features = ["as-raw-xcb-connection"] }
thiserror = "=1.0.69"
winapi = { version = "=0.3.9", features = ["winuser"] }
cty = "=0.2.2"
