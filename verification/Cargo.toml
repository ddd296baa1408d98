[package]
name = "scene_render"
version = "0.1.0"
edition = "2021"
publish = false

[dependencies]
anyhow = "1"
bytemuck = { version = "1", features = ["derive"] }
cgmath = "0.18"
console_error_panic_hook = "0.1"
console_log = "0.2"
env_logger = "0.9"
futures = "0.3"
iced = "0.4"
iced_wgpu = "0.5"
iced_winit = "0.4"
log = "0.4"
wasm-bindgen = "0.2"
web-sys = { version = "0.3", features = ["Document", "Element", "HtmlCanvasElement", "Window"] }
wgpu = "0.12"
winit = "0.26"
