[package]
name = "pbr_viewer"
version = "0.1.0"
edition = "2021"
publish = false

[dependencies]
cgmath = "0.18"
png = "0.16"
tobj = "3"
vulkano = "0.23"
vulkano-shaders = "0.23"
vulkano-win = "0.23"
winit = "0.24"
