[package]
name = "jellyfin_desktop"
version = "0.1.0"
edition = "2021"
publish = false

[dependencies]
clap = { version = "=4.6.7", features = ["derive"] }
error_reporter = "=1.0.0"
libc = "=0.2.191"
memmap2 = "=0.9.12"
parking_lot = "=0.12.5"
schemars = "=1.2.3"
serde_json = "=1.0.154"
tracing = "=0.1.44"
wayland-backend = { version = "=0.3.17", features = ["client_system", "dlopen"] }
wayland-client = "=0.31.15"
wayland-protocols = { version = "=0.32.13", features = ["client", "staging", "unstable"] }
wayland-protocols-plasma = { version = "=0.3.12", features = ["client"] }
wl-proxy = { version = "=0.1.5", features = ["protocol-xdg_shell", "protocol-viewporter", "protocol-fractional_scale_v1"] }
