[package]
name = "rocknix-keyboard"
version = "0.1.0"
edition = "2021"
publish = false

[dependencies]
anyhow = "=1.0.104"
libc = "=0.2.191"
parking_lot = "=0.12.5"
rustix = { version = "=0.38.44", features = ["event"] }
tracing-subscriber = "=0.3.23"
wayland-client = "=0.31.15"
wayland-protocols-misc = { version = "=0.3.12", features = ["client"] }
xkbcommon = "=0.8.0"
