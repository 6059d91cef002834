[package]
name = "particle_flow"
version = "0.1.0"
edition = "2021"
publish = false

[dependencies]
rand = "0.8"
wasm-bindgen = "0.2"
wasm-bindgen-futures = "0.4"
web-sys = { version = "0.3", features = ["Window", "Document", "Element", "HtmlCanvasElement", "CanvasRenderingContext2d", "ImageData", "ImageBitmap", "Blob", "Request", "RequestInit", "RequestMode", "Response", "TextMetrics", "console"] }
