[package]
name = "scramble_sheet"
version = "0.1.0"
edition = "2021"
publish = false

[dependencies]
slidy = "=0.4.1"
wasm-bindgen = "=0.2.129"
web-sys = { version = "=0.3.106", features = ["Window", "Document", "Element", "HtmlElement", "Node"] }
wasm-logger = "=0.2.0"
console_error_panic_hook = "=0.1.7"
