[package]
name = "egui_glyphon"
version = "0.1.0"
edition = "2021"
publish = false

[dependencies]
egui = "=0.31.1"
egui-wgpu = "=0.31.1"
glyphon = "=0.8.0"
type-map = "=0.5.1"
