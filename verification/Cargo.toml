[package]
name = "androlon"
version = "0.1.0"
edition = "2021"
publish = false

[dependencies]
openh264 = "=0.9.9"
sdl3 = "=0.20.0"
sdl3-sys = "=0.7.2"
dear-imgui-rs = "=0.22.0"
dear-imgui-sdl3 = { version = "=0.22.0", features = ["sdlrenderer3-renderer"] }
objc2 = "*"
objc2-app-kit = "*"
objc2-foundation = "*"
