[package]
name = "hexwidget"
version = "0.1.0"
edition = "2021"
publish = false

[dependencies]
eframe = { version = "=0.34.3", default-features = false, features = ["default_fonts", "wgpu", "x11"] }
egui = "=0.34.3"
egui_font_loader = "=0.34.3"
egui_hooks = "=0.11.0"
egui_tiles = "0.15"
tracing = "=0.1.44"
