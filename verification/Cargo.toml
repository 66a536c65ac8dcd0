[package]
name = "keyboard_visualizer"
version = "0.1.0"
edition = "2021"
publish = false

[dependencies]
ab_glyph = "*"
fontdb = "*"
json = "*"
softbuffer = "*"
tiny-skia = "*"
winit = "*"
