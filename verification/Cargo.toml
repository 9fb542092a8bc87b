[package]
name = "nes_rom"
version = "0.1.0"
edition = "2021"
publish = false

[dependencies]
gloo = "0.11"
log = "0.4"
uuid = { version = "1", features = ["v4"] }
wasm-bindgen = "0.2"
wasm-bindgen-futures = "0.4"
wasm-logger = "0.2"
web-sys = { version = "0.3", features = ["CanvasRenderingContext2d", "Document", "Element", "HtmlCanvasElement", "HtmlDialogElement", "HtmlInputElement", "ImageBitmap", "ImageData", "Window"] }
yew = { version = "0.21", features = ["csr"] }
