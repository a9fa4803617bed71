[package]
name = "air_line"
version = "0.1.0"
edition = "2021"
publish = false

[dependencies]
geojson = "*"
serde_json = "1"
wasm-bindgen = "0.2"
web-sys = { version = "0.3", features = ["console", "Window", "Document", "Element", "HtmlElement", "HtmlCanvasElement", "CanvasRenderingContext2d", "CanvasGradient"] }
