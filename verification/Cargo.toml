[package]
name = "frame_bridge"
version = "0.1.0"
edition = "2021"
publish = false

[dependencies]
glam = "*"
stardust-xr-fusion = "*"
tokio = { version = "1", features = ["macros", "rt-multi-thread"] }
tracing = "0.1"
tracing-subscriber = "0.3"
vulkano = "0.35"
winit = "0.30"
