[package]
name = "ruffle_render_glow"
version = "0.1.0"
edition = "2021"
publish = false

[dependencies]
anyhow = "*"
bytemuck = "*"
egui = "*"
egui-file-dialog = "*"
egui_glow = "*"
egui-sdl2-event = "*"
glow = "*"
libc = "*"
sdl2 = "*"
swf = "*"
thiserror = "*"
url = "*"
