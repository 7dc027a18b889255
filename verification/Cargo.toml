[package]
name = "wgpu_sandbox"
version = "0.1.0"
edition = "2021"
publish = false

[dependencies]
winit = { version = "0.29", default-features = false, features = ["rwh_06", "x11"] }

[dev-dependencies]
encase = { version = "=0.7.0", features = ["glam"] }
glam = "=0.25.0"
