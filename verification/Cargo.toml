[package]
name = "glow_lines"
version = "0.1.0"
edition = "2021"
publish = false

[dependencies]
axum = "=0.8.9"
color-eyre = "=0.6.5"
maud = { version = "=0.27.0", features = ["axum"] }
tokio = { version = "=1.53.2", features = ["rt-multi-thread", "macros", "net"] }
tower-http = { version = "=0.7.1", features = ["fs"] }
wasm-bindgen = "=0.2.129"
web-sys = { version = "=0.3.106", features = ["Window", "Document", "Element", "Node", "HtmlCanvasElement", "CanvasRenderingContext2d"] }
