[package]
name = "vk_obj"
version = "0.1.0"
edition = "2021"
publish = false

[dependencies]
cgmath = "0.17"
clap = "2"
image = "0.21"
tobj = "0.1"
vulkano = "0.13"
vulkano-shaders = "0.13"
vulkano-win = "0.13"
winit = "0.19"
