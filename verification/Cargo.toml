[package]
name = "ggez_graphics"
version = "0.1.0"
edition = "2021"
publish = false

[dependencies]
gfx = "0.18"
gfx_core = "0.9"
gfx_device_gl = "0.16"
mint = "0.5"
nalgebra = "0.18"
