[package]
name = "kestrel_rs"
version = "0.1.0"
edition = "2021"
publish = false

[dependencies]
url = "=2.5.8"
euclid = "=0.22.14"
futures = "=0.3.34"
winit = "=0.30.13"
iced_graphics = "=0.14.0"
iced_runtime = "=0.14.0"
iced_wgpu = { version = "=0.14.0", features = ["image"] }
iced_widget = { version = "=0.14.2", features = ["image"] }
iced_winit = "=0.14.1"
rustls = "=0.23.46"
