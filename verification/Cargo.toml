[package]
name = "gfx_core"
version = "0.1.0"
edition = "2021"
publish = false

[dependencies]
arrayvec = "0.4"
fern = "0.6"
gfx-backend-vulkan = "0.4"
gfx-hal = "0.4"
log = "0.4"
shaderc = "0.6"
winit = "0.20"
