[package]
name = "frame_pipeline"
version = "0.1.0"
edition = "2021"
publish = false

[dependencies]
anyhow = "1"
bytemuck = { version = "1", features = ["derive"] }
cfg-if = "1"
cgmath = "0.18"
colorgrad = "0.6"
console_error_panic_hook = "0.1"
console_log = "0.2"
env_logger = "0.9"
futures-intrusive = "0.4"
instant = "0.1"
log = "0.4"
png = "0.17"
pollster = "0.2"
tobj = "3.2"
wasm-bindgen = "0.2"
web-sys = { version = "0.3", features = ["Document", "Window", "Element"] }
wgpu = "0.13"
winit = "0.26"
