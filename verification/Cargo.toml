[package]
name = "star_render"
version = "0.1.0"
edition = "2021"
publish = false

[dependencies]
imgui = "0.8"
glium = "0.30"
imgui-glium-renderer = "0.8"
imgui-winit-support = "0.8"
