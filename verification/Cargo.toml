[package]
name = "tomato_core"
version = "0.1.0"
edition = "2021"
publish = false

[dependencies]
fontdue = "=0.9.4"
fontdue-sdl2 = { version = "=0.3.2", features = ["unsafe_textures"] }
json = "=0.12.4"
r_i18n = "=1.0.1"
sdl2 = { version = "=0.37.0", features = ["image", "unsafe_textures"] }
tiled = "=0.16.0"
