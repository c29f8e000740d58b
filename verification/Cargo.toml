[package]
name = "render_core"
version = "0.1.0"
edition = "2021"
publish = false

[dependencies]
c_str_macro = "1.0"
cgmath = "0.18"
gl = "0.14"
imgui = "0.7"
imgui-opengl-renderer = "0.11"
imgui-sdl2 = "0.14"
sdl2 = "0.34"
