[package]
name = "nbody"
version = "0.1.0"
edition = "2021"
publish = false

[dependencies]
bytemuck = "=1.25.2"
env_logger = "=0.11.11"
glam = "=0.30.10"
log = "=0.4.34"
pollster = "=1.0.1"
rand = "=0.8.8"
wgpu = "=25.0.2"
winit = "=0.30.13"
