[package]
name = "skia_vulkan_gl_renderer"
version = "0.1.0"
edition = "2021"
publish = false

[dependencies]
skulpin = "=0.14.1"
skia-safe = { version = "=0.153.3", features = ["gl", "vulkan"] }
glutin = "=0.27.0"
gl = "=0.14.0"
