[package]
name = "ferrite_engine"
version = "0.1.0"
edition = "2021"
publish = false

[dependencies]
env_logger = "=0.11.11"
glyphon = "=0.9.0"
pollster = "=0.4.0"
wgpu = "=25.0.2"
winit = "=0.30.13"
