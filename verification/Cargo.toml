[package]
name = "riri-imgui-vulkano"
version = "0.1.0"
edition = "2021"
publish = false

[dependencies]
bitflags = "2"
copypasta = "*"
glam = "*"
humantime = "2"
image = { version = "0.25", default-features = false, features = ["png"] }
imgui = "*"
imgui-winit-support = "*"
shaderc = "*"
vulkano = "*"
winit = "*"
