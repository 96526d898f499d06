[package]
name = "smithay"
version = "0.1.0"
edition = "2021"
publish = false

[dependencies]
ash = "0.37"
calloop = "0.10"
cgmath = "0.18"
drm-fourcc = "2"
gpu-alloc = "0.5"
gpu-allocator = { version = "0.22", default-features = false, features = ["vulkan"] }
lazy_static = "1"
nix = "0.26"
scopeguard = "1"
thiserror = "1"
wayland-backend = "0.1"
wayland-protocols = { version = "0.30", features = ["server", "unstable"] }
wayland-server = "0.30"
x11-dl = "2"
x11rb = { version = "0.10", features = ["dri3", "present", "xfixes"] }
