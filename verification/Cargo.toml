[package]
name = "wasm_plugin_sdk"
version = "0.1.0"
edition = "2021"
publish = false

[dependencies]
js-sys = "0.3"
pulldown-cmark = "*"
serde = { version = "1", features = ["derive"] }
serde-wasm-bindgen = "*"
serde_json = "1"
wasm-bindgen = "0.2"
