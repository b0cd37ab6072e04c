[package]
name = "niobe"
version = "0.1.0"
edition = "2021"
publish = false

[dependencies]
num-traits = "=0.2.19"
bytemuck = "=1.25.2"
futures = "=0.3.34"
pollster = "=0.2.5"
wgpu = "=0.10.2"
wgpu_glyph = "=0.14.1"
winit = "=0.25.0"

[dev-dependencies]
lexical = "6"
