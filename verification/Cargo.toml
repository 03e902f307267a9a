[package]
name = "canvas_bootstrap"
version = "0.1.0"
edition = "2021"
publish = false

[dependencies]
femtovg = "*"
glutin = "0.32"
glutin-winit = "0.5"
raw-window-handle = "0.6"
winit = "0.30"
wasm-bindgen = "0.2"
web-sys = { version = "0.3", features = ["Window", "Document", "Element", "HtmlCanvasElement"] }
