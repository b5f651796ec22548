[package]
name = "notiser"
version = "0.1.0"
edition = "2021"
publish = false

[dependencies]
anyhow = "=1.0.104"
calloop = "=0.13.0"
calloop-wayland-source = "=0.3.0"
clap = { version = "=4.6.7", features = ["derive"] }
cosmic-text = "=0.12.1"
glyphon = "=0.7.0"
image = { version = "=0.25.10", default-features = false }
mlua = { version = "=0.10.5", features = ["lua54", "vendored"] }
notify = "=7.0.0"
pollster = "=0.4.0"
raw-window-handle = "=0.6.2"
serde = { version = "=1.0.229", features = ["derive"] }
serde_json = "=1.0.154"
smithay-client-toolkit = { version = "=0.19.2", default-features = false }
thiserror = "=2.0.21"
tokio = { version = "=1.54.1", features = ["rt", "sync", "macros", "time"] }
tracing = "=0.1.44"
tracing-subscriber = { version = "=0.3.23", features = ["env-filter"] }
wayland-backend = { version = "=0.3.17", features = ["client_system", "rwh_06", "dlopen"] }
wayland-client = "=0.31.15"
wgpu = { version = "=23.0.1", default-features = false, features = ["wgsl"] }
zbus = { version = "=5.19.0", default-features = false, features = ["tokio"] }
