[package]
name = "pong"
version = "0.1.0"
edition = "2021"
publish = false

[dependencies]
rand = { version = "0.7", features = ["wasm-bindgen"] }
js-sys = "0.3"
wasm-bindgen = "0.2"
web-sys = { version = "0.3", features = ["Document", "Element", "EventTarget", "HtmlCanvasElement", "HtmlElement", "KeyboardEvent", "Node", "WebGl2RenderingContext", "WebGlBuffer", "WebGlProgram", "WebGlRenderingContext", "WebGlShader", "Window"] }
