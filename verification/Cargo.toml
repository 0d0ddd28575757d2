[package]
name = "offscreen_frame"
version = "0.1.0"
edition = "2021"
publish = false

[dependencies]
bytemuck = { version = "=1.25.2", features = ["derive"] }
druid = "=0.8.3"
futures-intrusive = "=0.4.2"
piet = "=0.6.2"
pollster = "=0.2.5"
wgpu = "=0.14.2"
