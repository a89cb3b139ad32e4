[package]
name = "imgui_skia"
version = "0.1.0"
edition = "2021"
publish = false

[dependencies]
imgui = "*"
skia-safe = "*"
