[package]
name = "diploma_thesis"
version = "0.1.0"
edition = "2021"
publish = false

[dependencies]
bytemuck = "1"
glam = "*"
gltf = "1"
hw-skymodel = "*"
image = { version = "0.25", default-features = false, features = ["jpeg", "png"] }
nalgebra-glm = "*"
pollster = "*"
slotmap = "1"
thiserror = "*"
wgpu = "25"
winit = { version = "0.30", default-features = false, features = ["rwh_06", "x11"] }
